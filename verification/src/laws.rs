//! Laws of the store, proved of the account of the tables in
//! [`crate::tables`].

use vstd::prelude::*;
use crate::error::StoreError;
use crate::records::{CalendarPresetView, NewCalendarPresetView, NewTaskView, SettingsView, TaskView};
use crate::statement::spec_insert_task;
use crate::tables::{assign, assign_all, repaired, stored, updated, Tables};
use crate::migrate::spec_corrupted_ids;
use crate::rows::{fits_i32, lemma_text_cell_reads_back, preset_row, settings_row, spec_decode_preset, spec_decode_settings, spec_decode_task, status_row, task_row};
use crate::status::{corrupted_status, valid_status, DEFAULT_STATUS};
use crate::update::{plan_upto, present, spec_plan, AssignmentView, TaskUpdateView};

verus! {

/// Filtering by a condition that every element meets keeps the sequence.
pub proof fn lemma_filter_keeps_all<A>(s: Seq<A>, keep: spec_fn(A) -> bool)
    requires
        forall|i: int| 0 <= i < s.len() ==> keep(#[trigger] s[i]),
    ensures
        s.filter(keep) == s,
    decreases s.len(),
{
    reveal(Seq::filter);
    if s.len() > 0 {
        lemma_filter_keeps_all(s.drop_last(), keep);
        assert(s.drop_last().push(s.last()) =~= s);
    }
}

/// What a filter keeps is what meets the condition: every element of the
/// result meets it and stood in the sequence, and every element of the
/// sequence that meets it stands in the result.
pub proof fn lemma_filter_members<A>(s: Seq<A>, keep: spec_fn(A) -> bool)
    ensures
        forall|i: int| 0 <= i < s.filter(keep).len() ==> keep(#[trigger] s.filter(keep)[i]),
        forall|i: int| 0 <= i < s.filter(keep).len() ==> s.contains(#[trigger] s.filter(keep)[i]),
        forall|i: int| 0 <= i < s.len() && keep(s[i]) ==> s.filter(keep).contains(#[trigger] s[i]),
    decreases s.len(),
{
    reveal(Seq::filter);
    if s.len() > 0 {
        let front = s.drop_last();
        lemma_filter_members(front, keep);
        let kept = s.filter(keep);
        assert forall|i: int| 0 <= i < kept.len() implies s.contains(#[trigger] kept[i]) by {
            if i < front.filter(keep).len() {
                let k = choose|k: int| 0 <= k < front.len() && front[k] == front.filter(keep)[i];
                assert(s[k] == kept[i]);
            } else {
                assert(s[s.len() - 1] == kept[i]);
            }
        }
        assert forall|i: int| 0 <= i < s.len() && keep(s[i]) implies kept.contains(
            #[trigger] s[i],
        ) by {
            if i < front.len() {
                assert(front[i] == s[i]);
                let k = choose|k: int|
                    0 <= k < front.filter(keep).len() && front.filter(keep)[k] == front[i];
                assert(kept[k] == s[i]);
            } else {
                assert(kept[kept.len() - 1] == s[i]);
            }
        }
    }
}

/// A task with a status outside the enumeration is not inserted: the write
/// fails with `ConstraintViolation`, and a failed write leaves the tables
/// as they were.
pub proof fn law_invalid_status_is_rejected(tables: Tables, task: NewTaskView, now: Seq<char>)
    requires
        !valid_status(task.status),
    ensures
        tables.add_task(task, now) == Err::<Tables, StoreError>(StoreError::ConstraintViolation),
{
}

/// An update with no field present succeeds and leaves every table as it
/// was.
pub proof fn law_empty_update_changes_nothing(tables: Tables, id: int, update: TaskUpdateView)
    requires
        update.is_empty(),
    ensures
        tables.update_task(id, update) == Ok::<Tables, StoreError>(tables),
{
    crate::update::lemma_plan_is_empty(update);
    let after = tables.update_task(id, update)->Ok_0;
    assert(after.tasks =~= tables.tasks);
}

/// Overwriting the settings of a store that is set up, twice, leaves
/// exactly one settings row, which holds the values written last.
pub proof fn law_settings_stay_single(tables: Tables, first: SettingsView, second: SettingsView)
    requires
        tables.wf(),
    ensures
        tables.set_up().update_settings(first).update_settings(second).settings == seq![second],
        tables.set_up().update_settings(first).update_settings(second).get_settings() == Ok::<
            SettingsView,
            StoreError,
        >(second),
{
    let after = tables.set_up().update_settings(first).update_settings(second);
    assert(after.settings =~= seq![second]);
}

/// Setting a store up again changes nothing: in particular the settings
/// that are there are not overwritten.
pub proof fn law_set_up_is_idempotent(tables: Tables)
    ensures
        tables.set_up().set_up() == tables.set_up(),
        tables.settings.len() > 0 ==> tables.set_up() == tables,
        tables.set_up().settings.len() >= 1,
        tables.wf() ==> tables.set_up().settings.len() == 1 && tables.set_up().wf(),
{
}

/// Deleting a task that is not there changes nothing.
pub proof fn law_delete_of_absent_task(tables: Tables, id: int)
    requires
        !tables.has_task(id),
    ensures
        tables.delete_task(id) == tables,
{
    lemma_filter_keeps_all(tables.tasks, |task: TaskView| task.id != id);
}

/// Deleting a task removes it and nothing else: no task with that id is
/// left, and every other task is still there.
pub proof fn law_delete_removes_only_that_task(tables: Tables, id: int)
    ensures
        !tables.delete_task(id).has_task(id),
        forall|i: int|
            0 <= i < tables.tasks.len() && tables.tasks[i].id != id ==> tables.delete_task(
                id,
            ).tasks.contains(#[trigger] tables.tasks[i]),
        forall|i: int|
            0 <= i < tables.delete_task(id).tasks.len() ==> tables.tasks.contains(
                #[trigger] tables.delete_task(id).tasks[i],
            ),
{
    lemma_filter_members(tables.tasks, |task: TaskView| task.id != id);
}

/// Clearing a column removes all tasks with that status and only those:
/// no task that is left has the status, every task with another status is
/// still there as it was, and no task is there that was not. Clearing the
/// same column again changes nothing. The other tables are not touched.
pub proof fn law_clear_column(tables: Tables, status: Seq<char>)
    ensures
        forall|i: int|
            0 <= i < tables.clear_column(status).tasks.len() ==> (#[trigger] tables.clear_column(
                status,
            ).tasks[i]).status != status,
        forall|i: int|
            0 <= i < tables.tasks.len() && tables.tasks[i].status != status
                ==> tables.clear_column(status).tasks.contains(#[trigger] tables.tasks[i]),
        forall|i: int|
            0 <= i < tables.clear_column(status).tasks.len() ==> tables.tasks.contains(
                #[trigger] tables.clear_column(status).tasks[i],
            ),
        tables.clear_column(status).clear_column(status) == tables.clear_column(status),
        tables.clear_column(status).settings == tables.settings,
        tables.clear_column(status).presets == tables.presets,
{
    let keep = |task: TaskView| task.status != status;
    lemma_filter_members(tables.tasks, keep);
    lemma_filter_keeps_all(tables.tasks.filter(keep), keep);
}

/// An assignment writes the column that it names, and no other: after it
/// the task holds the bound value in the field of the assignment and what
/// it held before in every other field. The id and the creation time are
/// not among the fields, so no assignment changes them. Two assignments
/// to different fields name different columns.
pub proof fn law_assignment_writes_its_column(
    task: TaskView,
    assignment: AssignmentView,
    other: AssignmentView,
)
    ensures
        stored(assign(task, assignment), assignment.rank()) == assignment.value(),
        forall|rank: int|
            rank != assignment.rank() ==> #[trigger] stored(assign(task, assignment), rank)
                == stored(task, rank),
        assign(task, assignment).id == task.id,
        assign(task, assignment).created_at == task.created_at,
        assignment.rank() != other.rank() ==> assignment.column() != other.column(),
        assignment.rank() == other.rank() ==> assignment.column() == other.column(),
{
    reveal_strlit("content");
    reveal_strlit("status");
    reveal_strlit("priority");
    reveal_strlit("tags");
    reveal_strlit("time_duration");
    reveal_strlit("due_date");
    reveal_strlit("completed_at");
    if assignment.rank() != other.rank() {
        let a = assignment.column();
        let b = other.column();
        if a.len() == b.len() {
            assert(a[0] != b[0] || a[1] != b[1]);
        }
    }
}

/// The statement that inserts a task binds the values of the row that
/// the tables get, in the order in which its text names the columns:
/// content, status, priority, tags, time_duration, due_date.
pub proof fn law_insert_binds_the_new_row(tables: Tables, task: NewTaskView, now: Seq<char>)
    ensures
        spec_insert_task(task).params.len() == 6,
        forall|rank: int|
            0 <= rank < 6 ==> #[trigger] spec_insert_task(task).params[rank] == stored(
                tables.new_row(task, now),
                rank,
            ),
{
}

/// Carrying out one more field of a plan: an absent field changes
/// nothing, a present one is assigned after the others.
pub proof fn lemma_assign_step(
    task: TaskView,
    plan: Seq<AssignmentView>,
    field: Option<AssignmentView>,
)
    ensures
        field is None ==> assign_all(task, plan + present(field)) == assign_all(task, plan),
        field is Some ==> assign_all(task, plan + present(field)) == assign(
            assign_all(task, plan),
            field->0,
        ),
{
    match field {
        Some(a) => {
            let longer = plan + present(field);
            assert(longer.drop_last() =~= plan);
            assert(longer.last() == a);
        },
        None => {
            assert(plan + present(field) =~= plan);
        },
    }
}

/// Carrying out the plan of a request gives each present field its new
/// value and keeps every other field.
pub proof fn lemma_plan_updates(task: TaskView, update: TaskUpdateView)
    ensures
        assign_all(task, spec_plan(update)) == updated(task, update),
{
    let t0 = assign_all(task, plan_upto(update, 0));
    assert(t0 == task);
    lemma_assign_step(task, plan_upto(update, 0), update.field(0));
    let t1 = assign_all(task, plan_upto(update, 1));
    lemma_assign_step(task, plan_upto(update, 1), update.field(1));
    let t2 = assign_all(task, plan_upto(update, 2));
    lemma_assign_step(task, plan_upto(update, 2), update.field(2));
    let t3 = assign_all(task, plan_upto(update, 3));
    lemma_assign_step(task, plan_upto(update, 3), update.field(3));
    let t4 = assign_all(task, plan_upto(update, 4));
    lemma_assign_step(task, plan_upto(update, 4), update.field(4));
    let t5 = assign_all(task, plan_upto(update, 5));
    lemma_assign_step(task, plan_upto(update, 5), update.field(5));
    let t6 = assign_all(task, plan_upto(update, 6));
    lemma_assign_step(task, plan_upto(update, 6), update.field(6));
    let t7 = assign_all(task, plan_upto(update, 7));
    assert(t1.content == updated(task, update).content);
    assert(t2.status == updated(task, update).status && t2.content == t1.content);
    assert(t3.priority == updated(task, update).priority);
    assert(t4.tags == updated(task, update).tags);
    assert(t5.time_duration == updated(task, update).time_duration);
    assert(t6.due_date == updated(task, update).due_date);
    assert(t7.completed_at == updated(task, update).completed_at);
    assert(t7 == updated(task, update));
}

/// A partial update touches the named task in the present fields only.
/// The update succeeds if the status it holds, if any, is of the
/// enumeration. After it the task `id` has the new value in each field
/// that the request holds and its old value in every other field; all
/// other tasks, the settings and the presets are as they were. So an
/// update that holds a priority only changes the priority only.
pub proof fn law_update_touches_only_present_fields(
    tables: Tables,
    id: int,
    update: TaskUpdateView,
)
    requires
        update.status is Some ==> valid_status(update.status->0),
    ensures
        tables.update_task(id, update) is Ok,
        tables.update_task(id, update)->Ok_0.tasks.len() == tables.tasks.len(),
        forall|i: int|
            0 <= i < tables.tasks.len() && tables.tasks[i].id == id ==> (
            #[trigger] tables.update_task(id, update)->Ok_0.tasks[i]) == updated(
                tables.tasks[i],
                update,
            ),
        forall|i: int|
            0 <= i < tables.tasks.len() && tables.tasks[i].id != id ==> (
            #[trigger] tables.update_task(id, update)->Ok_0.tasks[i]) == tables.tasks[i],
        tables.update_task(id, update)->Ok_0.settings == tables.settings,
        tables.update_task(id, update)->Ok_0.presets == tables.presets,
{
    let after = tables.update_task(id, update)->Ok_0;
    assert forall|i: int| 0 <= i < tables.tasks.len() && tables.tasks[i].id == id implies (
    #[trigger] after.tasks[i]) == updated(tables.tasks[i], update) by {
        lemma_plan_updates(tables.tasks[i], update);
    }
}

/// Updating a task that is not there succeeds and changes nothing.
pub proof fn law_update_of_absent_task(tables: Tables, id: int, update: TaskUpdateView)
    requires
        update.status is Some ==> valid_status(update.status->0),
        !tables.has_task(id),
    ensures
        tables.update_task(id, update) == Ok::<Tables, StoreError>(tables),
{
    let after = tables.update_task(id, update)->Ok_0;
    assert(after.tasks =~= tables.tasks);
}

/// An update that holds a status outside the enumeration fails with
/// `ConstraintViolation`; a failed write leaves the tables as they were.
pub proof fn law_update_to_invalid_status_is_rejected(
    tables: Tables,
    id: int,
    update: TaskUpdateView,
)
    requires
        update.status is Some,
        !valid_status(update.status->0),
    ensures
        tables.update_task(id, update) == Err::<Tables, StoreError>(
            StoreError::ConstraintViolation,
        ),
{
}

/// The repair pass heals the corrupted statuses and touches nothing
/// else. A task whose status was a number written in digits has the
/// default status afterwards and is otherwise as it was; every other task
/// is as it was. No status is corrupted after the pass, so a second pass
/// changes nothing.
pub proof fn law_repair_heals_once(tables: Tables)
    ensures
        tables.repair().tasks.len() == tables.tasks.len(),
        forall|i: int|
            0 <= i < tables.tasks.len() && corrupted_status(tables.tasks[i].status) ==> (
            #[trigger] tables.repair().tasks[i]) == (TaskView {
                status: DEFAULT_STATUS@,
                ..tables.tasks[i]
            }),
        forall|i: int|
            0 <= i < tables.tasks.len() && !corrupted_status(tables.tasks[i].status) ==> (
            #[trigger] tables.repair().tasks[i]) == tables.tasks[i],
        forall|i: int|
            0 <= i < tables.tasks.len() ==> !corrupted_status(
                (#[trigger] tables.repair().tasks[i]).status,
            ),
        tables.repair().repair() == tables.repair(),
        tables.repair().settings == tables.settings,
        tables.repair().presets == tables.presets,
{
    crate::status::lemma_valid_status_is_sound(DEFAULT_STATUS@);
    let once = tables.repair();
    assert forall|i: int| 0 <= i < tables.tasks.len() implies !corrupted_status(
        (#[trigger] once.tasks[i]).status,
    ) by {
        assert(once.tasks[i] == repaired(tables.tasks[i]));
    }
    assert(once.repair().tasks =~= once.tasks);
}

/// The repair pass leaves a store whose statuses are all of the
/// enumeration as it is, and it turns a store in which every status is of
/// the enumeration or corrupted into one whose statuses are all of the
/// enumeration.
pub proof fn law_repair_restores_the_enumeration(tables: Tables)
    ensures
        tables.statuses_valid() ==> tables.repair() == tables,
        (forall|i: int|
            0 <= i < tables.tasks.len() ==> valid_status((#[trigger] tables.tasks[i]).status)
                || corrupted_status(tables.tasks[i].status)) ==> tables.repair().statuses_valid(),
{
    if tables.statuses_valid() {
        assert forall|i: int| 0 <= i < tables.tasks.len() implies repaired(
            #[trigger] tables.tasks[i],
        ) == tables.tasks[i] by {
            crate::status::lemma_valid_status_is_sound(tables.tasks[i].status);
        }
        assert(tables.repair().tasks =~= tables.tasks);
    }
    if forall|i: int|
        0 <= i < tables.tasks.len() ==> valid_status((#[trigger] tables.tasks[i]).status)
            || corrupted_status(tables.tasks[i].status) {
        assert forall|i: int| 0 <= i < tables.repair().tasks.len() implies valid_status(
            (#[trigger] tables.repair().tasks[i]).status,
        ) by {
            assert(tables.repair().tasks[i] == repaired(tables.tasks[i]));
            assert(valid_status(tables.tasks[i].status) || corrupted_status(
                tables.tasks[i].status,
            ));
        }
    }
}

/// A row added to rows that do not hold it stands exactly once in every
/// arrangement of the rows after the addition, and such an arrangement
/// holds no row that is not among them.
pub proof fn lemma_added_row_is_listed_once<A>(rows: Seq<A>, row: A, listing: Seq<A>)
    requires
        rows.no_duplicates(),
        !rows.contains(row),
        listing.to_multiset() == rows.push(row).to_multiset(),
    ensures
        listing.contains(row),
        listing.no_duplicates(),
        forall|i: int| 0 <= i < listing.len() ==> rows.push(row).contains(#[trigger] listing[i]),
{
    broadcast use vstd::seq_lib::group_to_multiset_ensures;

    let after = rows.push(row);
    assert(after[rows.len() as int] == row);
    assert(after.no_duplicates()) by {
        assert forall|i: int, j: int|
            0 <= i < after.len() && 0 <= j < after.len() && i != j implies after[i] != after[j] by {
            if i < rows.len() && j < rows.len() {
                assert(after[i] == rows[i] && after[j] == rows[j]);
            } else if i < rows.len() {
                assert(rows.contains(rows[i]));
            } else {
                assert(rows.contains(rows[j]));
            }
        }
    }
    after.lemma_multiset_has_no_duplicates();
    listing.lemma_multiset_has_no_duplicates_conv();
    assert(after.contains(row));
    assert(listing.to_multiset().count(row) > 0);
    assert forall|i: int| 0 <= i < listing.len() implies after.contains(#[trigger] listing[i]) by {
        assert(listing.contains(listing[i]));
        assert(after.to_multiset().count(listing[i]) > 0);
    }
}

/// A task inserted with a status of the enumeration is listed exactly
/// once. The insertion succeeds; every listing of the tasks after it holds
/// the new row, at one place only; the row has the id that the store
/// assigned, the values that the caller gave, the creation time that the
/// store stamped, and no completion time.
pub proof fn law_added_task_is_listed_once(
    tables: Tables,
    task: NewTaskView,
    now: Seq<char>,
    listing: Seq<TaskView>,
)
    requires
        tables.wf(),
        valid_status(task.status),
        tables.add_task(task, now)->Ok_0.is_task_listing(listing),
    ensures
        tables.add_task(task, now) is Ok,
        exists|i: int| 0 <= i < listing.len() && listing[i] == tables.new_row(task, now),
        forall|i: int, j: int|
            0 <= i < listing.len() && 0 <= j < listing.len() && listing[i].id
                == tables.next_task_id && listing[j].id == tables.next_task_id ==> i == j,
        forall|i: int|
            0 <= i < listing.len() && listing[i].id == tables.next_task_id ==> listing[i]
                == tables.new_row(task, now),
        tables.new_row(task, now).created_at == now,
        tables.new_row(task, now).completed_at is None,
        tables.new_row(task, now).content == task.content,
        tables.new_row(task, now).status == task.status,
        tables.new_row(task, now).priority == task.priority,
        tables.new_row(task, now).tags == task.tags,
        tables.new_row(task, now).due_date == task.due_date,
        tables.new_row(task, now).time_duration == task.time_duration,
{
    let row = tables.new_row(task, now);
    assert(tables.tasks.no_duplicates()) by {
        assert forall|i: int, j: int|
            0 <= i < tables.tasks.len() && 0 <= j < tables.tasks.len() && i
                != j implies tables.tasks[i] != tables.tasks[j] by {
            if i < j {
                assert(tables.tasks[i].id < tables.tasks[j].id);
            } else {
                assert(tables.tasks[j].id < tables.tasks[i].id);
            }
        }
    }
    lemma_added_row_is_listed_once(tables.tasks, row, listing);
    let at = choose|i: int| 0 <= i < listing.len() && listing[i] == row;
    assert(listing[at] == row);
    assert forall|i: int|
        0 <= i < listing.len() && listing[i].id == tables.next_task_id implies listing[i]
        == row by {
        let after = tables.tasks.push(row);
        assert(after.contains(listing[i]));
        let k = choose|k: int| 0 <= k < after.len() && after[k] == listing[i];
        if k < tables.tasks.len() {
            assert(after[k] == tables.tasks[k]);
        }
    }
}

/// A calendar preset that is inserted is listed exactly once: every
/// listing of the presets after the insertion holds the new row, at one
/// place only, with the id that the store assigned and the values that
/// the caller gave. The tasks and the settings are not touched.
pub proof fn law_added_preset_is_listed_once(
    tables: Tables,
    preset: NewCalendarPresetView,
    listing: Seq<CalendarPresetView>,
)
    requires
        tables.wf(),
        tables.add_preset(preset).is_preset_listing(listing),
    ensures
        exists|i: int|
            0 <= i < listing.len() && listing[i] == (CalendarPresetView {
                id: tables.next_preset_id,
                name: preset.name,
                default_tags: preset.default_tags,
                default_priority: preset.default_priority,
            }),
        forall|i: int, j: int|
            0 <= i < listing.len() && 0 <= j < listing.len() && listing[i].id
                == tables.next_preset_id && listing[j].id == tables.next_preset_id ==> i == j,
        tables.add_preset(preset).tasks == tables.tasks,
        tables.add_preset(preset).settings == tables.settings,
{
    let row = CalendarPresetView {
        id: tables.next_preset_id,
        name: preset.name,
        default_tags: preset.default_tags,
        default_priority: preset.default_priority,
    };
    assert(tables.presets.no_duplicates()) by {
        assert forall|i: int, j: int|
            0 <= i < tables.presets.len() && 0 <= j < tables.presets.len() && i
                != j implies tables.presets[i] != tables.presets[j] by {
            if i < j {
                assert(tables.presets[i].id < tables.presets[j].id);
            } else {
                assert(tables.presets[j].id < tables.presets[i].id);
            }
        }
    }
    lemma_added_row_is_listed_once(tables.presets, row, listing);
    let at = choose|i: int| 0 <= i < listing.len() && listing[i] == row;
    assert(listing[at] == row);
    assert forall|i: int, j: int|
        0 <= i < listing.len() && 0 <= j < listing.len() && listing[i].id
            == tables.next_preset_id && listing[j].id == tables.next_preset_id implies i == j by {
        let after = tables.presets.push(row);
        assert(after.contains(listing[i]));
        assert(after.contains(listing[j]));
        let k = choose|k: int| 0 <= k < after.len() && after[k] == listing[i];
        let m = choose|m: int| 0 <= m < after.len() && after[m] == listing[j];
        if k < tables.presets.len() {
            assert(after[k] == tables.presets[k]);
        }
        if m < tables.presets.len() {
            assert(after[m] == tables.presets[m]);
        }
    }
}

/// Deleting a calendar preset that is not there changes nothing.
pub proof fn law_delete_of_absent_preset(tables: Tables, id: int)
    requires
        forall|i: int| 0 <= i < tables.presets.len() ==> (#[trigger] tables.presets[i]).id != id,
    ensures
        tables.delete_preset(id) == tables,
{
    lemma_filter_keeps_all(tables.presets, |preset: CalendarPresetView| preset.id != id);
}

/// A filter keeps the order: where a key rises strictly along a
/// sequence, it rises strictly along what a filter keeps of it.
pub proof fn lemma_filter_keeps_order<A>(
    s: Seq<A>,
    keep: spec_fn(A) -> bool,
    key: spec_fn(A) -> int,
)
    requires
        forall|i: int, j: int| 0 <= i < j < s.len() ==> key(s[i]) < key(s[j]),
    ensures
        forall|i: int, j: int|
            0 <= i < j < s.filter(keep).len() ==> key(s.filter(keep)[i]) < key(s.filter(keep)[j]),
    decreases s.len(),
{
    reveal(Seq::filter);
    if s.len() > 0 {
        let front = s.drop_last();
        lemma_filter_keeps_order(front, keep, key);
        lemma_filter_members(front, keep);
        let kept = s.filter(keep);
        assert forall|i: int, j: int| 0 <= i < j < kept.len() implies key(kept[i]) < key(
            kept[j],
        ) by {
            if j >= front.filter(keep).len() {
                assert(front.contains(front.filter(keep)[i]));
                let k = choose|k: int| 0 <= k < front.len() && front[k] == front.filter(keep)[i];
                assert(s[k] == kept[i]);
                assert(key(s[k]) < key(s[s.len() - 1]));
            }
        }
    }
}

/// An insertion keeps the tables well formed: the new row gets an id
/// above all that were given out before, so the ids still rise strictly in
/// the order of insertion and lie below the next id.
pub proof fn law_insertions_keep_the_tables_well_formed(
    tables: Tables,
    task: NewTaskView,
    now: Seq<char>,
    preset: NewCalendarPresetView,
)
    requires
        tables.wf(),
    ensures
        tables.add_task(task, now) is Ok ==> tables.add_task(task, now)->Ok_0.wf(),
        tables.add_task(task, now) is Ok ==> tables.add_task(task, now)->Ok_0.next_task_id
            > tables.next_task_id,
        tables.add_preset(preset).wf(),
        tables.add_preset(preset).next_preset_id > tables.next_preset_id,
{
    if tables.add_task(task, now) is Ok {
        let after = tables.add_task(task, now)->Ok_0;
        let last = tables.tasks.len() as int;
        assert(after.tasks[last].id == tables.next_task_id);
        assert forall|i: int| 0 <= i < after.tasks.len() implies 0 < (
        #[trigger] after.tasks[i]).id < after.next_task_id by {
            if i < last {
                assert(after.tasks[i] == tables.tasks[i]);
            }
        }
        assert forall|i: int, j: int| 0 <= i < j < after.tasks.len() implies after.tasks[i].id
            < after.tasks[j].id by {
            assert(after.tasks[i] == tables.tasks[i]);
            if j < last {
                assert(after.tasks[j] == tables.tasks[j]);
            }
        }
    }
    let more = tables.add_preset(preset);
    let last = tables.presets.len() as int;
    assert(more.presets[last].id == tables.next_preset_id);
    assert forall|i: int| 0 <= i < more.presets.len() implies 0 < (#[trigger] more.presets[i]).id
        < more.next_preset_id by {
        if i < last {
            assert(more.presets[i] == tables.presets[i]);
        }
    }
    assert forall|i: int, j: int| 0 <= i < j < more.presets.len() implies more.presets[i].id
        < more.presets[j].id by {
        assert(more.presets[i] == tables.presets[i]);
        if j < last {
            assert(more.presets[j] == tables.presets[j]);
        }
    }
}

/// A change of rows keeps the tables well formed: an update, the repair
/// pass and the overwriting of the settings change no id and add no row;
/// setting the store up adds at most the one settings row.
pub proof fn law_changes_keep_the_tables_well_formed(
    tables: Tables,
    id: int,
    update: TaskUpdateView,
    settings: SettingsView,
)
    requires
        tables.wf(),
    ensures
        Tables::empty().wf(),
        tables.set_up().wf(),
        tables.update_task(id, update) is Ok ==> tables.update_task(id, update)->Ok_0.wf(),
        tables.update_settings(settings).wf(),
        tables.repair().wf(),
{
    if tables.update_task(id, update) is Ok {
        let after = tables.update_task(id, update)->Ok_0;
        assert forall|i: int| 0 <= i < after.tasks.len() implies (#[trigger] after.tasks[i]).id
            == tables.tasks[i].id by {
            lemma_plan_updates(tables.tasks[i], update);
        }
        assert forall|i: int, j: int| 0 <= i < j < after.tasks.len() implies after.tasks[i].id
            < after.tasks[j].id by {
            assert(after.tasks[i].id == tables.tasks[i].id);
            assert(after.tasks[j].id == tables.tasks[j].id);
        }
    }
    let mended = tables.repair();
    assert forall|i: int| 0 <= i < mended.tasks.len() implies (#[trigger] mended.tasks[i]).id
        == tables.tasks[i].id by {
        assert(mended.tasks[i] == repaired(tables.tasks[i]));
    }
    assert forall|i: int, j: int| 0 <= i < j < mended.tasks.len() implies mended.tasks[i].id
        < mended.tasks[j].id by {
        assert(mended.tasks[i].id == tables.tasks[i].id);
        assert(mended.tasks[j].id == tables.tasks[j].id);
    }
}

/// A deletion keeps the tables well formed: the rows that stay keep their
/// ids and their order, and the next id does not go back, so the id of a
/// deleted row is never given out again.
pub proof fn law_deletions_keep_the_tables_well_formed(tables: Tables, id: int, status: Seq<char>)
    requires
        tables.wf(),
    ensures
        tables.delete_task(id).wf(),
        tables.delete_task(id).next_task_id == tables.next_task_id,
        tables.clear_column(status).wf(),
        tables.clear_column(status).next_task_id == tables.next_task_id,
        tables.delete_preset(id).wf(),
        tables.delete_preset(id).next_preset_id == tables.next_preset_id,
{
    let task_id = |t: TaskView| t.id;
    let preset_id = |p: CalendarPresetView| p.id;
    let other_task = |t: TaskView| t.id != id;
    let other_status = |t: TaskView| t.status != status;
    let other_preset = |p: CalendarPresetView| p.id != id;
    lemma_filter_keeps_order(tables.tasks, other_task, task_id);
    lemma_filter_members(tables.tasks, other_task);
    lemma_filter_keeps_order(tables.tasks, other_status, task_id);
    lemma_filter_members(tables.tasks, other_status);
    lemma_filter_keeps_order(tables.presets, other_preset, preset_id);
    lemma_filter_members(tables.presets, other_preset);
    let deleted = tables.delete_task(id);
    assert forall|i: int| 0 <= i < deleted.tasks.len() implies 0 < (
    #[trigger] deleted.tasks[i]).id < deleted.next_task_id by {
        assert(tables.tasks.contains(deleted.tasks[i]));
    }
    let cleared = tables.clear_column(status);
    assert forall|i: int| 0 <= i < cleared.tasks.len() implies 0 < (
    #[trigger] cleared.tasks[i]).id < cleared.next_task_id by {
        assert(tables.tasks.contains(cleared.tasks[i]));
    }
    let fewer = tables.delete_preset(id);
    assert forall|i: int| 0 <= i < fewer.presets.len() implies 0 < (
    #[trigger] fewer.presets[i]).id < fewer.next_preset_id by {
        assert(tables.presets.contains(fewer.presets[i]));
    }
}

/// The store keeps the statuses within the enumeration: where every task
/// has a status of the enumeration before a write, every task has one
/// after it.
pub proof fn law_writes_keep_the_statuses_valid(
    tables: Tables,
    task: NewTaskView,
    now: Seq<char>,
    id: int,
    update: TaskUpdateView,
    status: Seq<char>,
)
    requires
        tables.statuses_valid(),
    ensures
        tables.add_task(task, now) is Ok ==> tables.add_task(task, now)->Ok_0.statuses_valid(),
        tables.update_task(id, update) is Ok ==> tables.update_task(
            id,
            update,
        )->Ok_0.statuses_valid(),
        tables.delete_task(id).statuses_valid(),
        tables.clear_column(status).statuses_valid(),
{
    if tables.add_task(task, now) is Ok {
        let after = tables.add_task(task, now)->Ok_0;
        assert forall|i: int| 0 <= i < after.tasks.len() implies valid_status(
            (#[trigger] after.tasks[i]).status,
        ) by {
            if i < tables.tasks.len() {
                assert(after.tasks[i] == tables.tasks[i]);
            }
        }
    }
    if tables.update_task(id, update) is Ok {
        let after = tables.update_task(id, update)->Ok_0;
        assert forall|i: int| 0 <= i < after.tasks.len() implies valid_status(
            (#[trigger] after.tasks[i]).status,
        ) by {
            lemma_plan_updates(tables.tasks[i], update);
            assert(valid_status(tables.tasks[i].status));
        }
    }
    let other_task = |t: TaskView| t.id != id;
    let other_status = |t: TaskView| t.status != status;
    lemma_filter_members(tables.tasks, other_task);
    lemma_filter_members(tables.tasks, other_status);
    let deleted = tables.delete_task(id);
    assert forall|i: int| 0 <= i < deleted.tasks.len() implies valid_status(
        (#[trigger] deleted.tasks[i]).status,
    ) by {
        assert(tables.tasks.contains(deleted.tasks[i]));
    }
    let cleared = tables.clear_column(status);
    assert forall|i: int| 0 <= i < cleared.tasks.len() implies valid_status(
        (#[trigger] cleared.tasks[i]).status,
    ) by {
        assert(tables.tasks.contains(cleared.tasks[i]));
    }
}

/// Reading undoes storing: the row that stands for a record is read back
/// as that record, provided its numbers fit in 32 bits, as those of every
/// record that came in through this crate do.
pub proof fn law_rows_read_back(task: TaskView, preset: CalendarPresetView, settings: SettingsView)
    ensures
        fits_i32(task.priority) && (task.time_duration is Some ==> fits_i32(
            task.time_duration->0,
        )) ==> spec_decode_task(task_row(task)) == Some(task),
        fits_i32(preset.default_priority) ==> spec_decode_preset(preset_row(preset)) == Some(
            preset,
        ),
        fits_i32(settings.available_time) ==> spec_decode_settings(seq![settings_row(settings)])
            == Some(settings),
{
    lemma_text_cell_reads_back(task.content);
    lemma_text_cell_reads_back(task.status);
    lemma_text_cell_reads_back(task.created_at);
    lemma_text_cell_reads_back(task.tags);
    if task.completed_at is Some {
        lemma_text_cell_reads_back(task.completed_at->0);
    }
    if task.due_date is Some {
        lemma_text_cell_reads_back(task.due_date->0);
    }
    lemma_text_cell_reads_back(preset.name);
    lemma_text_cell_reads_back(preset.default_tags);
    lemma_text_cell_reads_back(settings.theme);
    lemma_text_cell_reads_back(settings.time_mode);
}

/// The repair pass picks the tasks that need it and no others: from the
/// status rows of the tables it picks the ids of exactly the tasks whose
/// status is corrupted, in the order of the tables. Those are the tasks
/// that the repair changes.
pub proof fn law_repair_pass_picks_the_corrupted(tables: Tables)
    ensures
        spec_corrupted_ids(tables.tasks.map_values(|task: TaskView| status_row(task)))
            == tables.tasks.filter(|task: TaskView| corrupted_status(task.status)).map_values(
            |task: TaskView| task.id,
        ),
    decreases tables.tasks.len(),
{
    reveal(Seq::filter);
    let to_row = |task: TaskView| status_row(task);
    let wanted = |row: Seq<crate::value::CellView>| crate::migrate::is_target(row);
    let id_of = |row: Seq<crate::value::CellView>| crate::migrate::target_id(row);
    let corrupted = |task: TaskView| corrupted_status(task.status);
    let task_id = |task: TaskView| task.id;
    let tasks = tables.tasks;
    if tasks.len() == 0 {
        assert(tasks.map_values(to_row).filter(wanted).map_values(id_of) =~= tasks.filter(
            corrupted,
        ).map_values(task_id));
    } else {
        let front = Tables { tasks: tasks.drop_last(), ..tables };
        law_repair_pass_picks_the_corrupted(front);
        let last = tasks.last();
        lemma_text_cell_reads_back(last.status);
        assert(tasks.map_values(to_row).drop_last() =~= tasks.drop_last().map_values(to_row));
        assert(tasks.map_values(to_row).last() == status_row(last));
        assert(wanted(status_row(last)) == corrupted(last));
        assert(id_of(status_row(last)) == last.id);
        if corrupted(last) {
            assert(tasks.map_values(to_row).filter(wanted).map_values(id_of)
                =~= tasks.drop_last().map_values(to_row).filter(wanted).map_values(id_of).push(
                last.id,
            ));
            assert(tasks.filter(corrupted).map_values(task_id) =~= tasks.drop_last().filter(
                corrupted,
            ).map_values(task_id).push(last.id));
        }
    }
}

} // verus!
