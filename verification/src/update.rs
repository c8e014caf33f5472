//! The partial update of a task: from a request in which each updatable
//! field is present or absent to an ordered list of assignments. The name
//! of a column and the value bound for it come from one assignment, so the
//! two cannot fall out of step.

use vstd::prelude::*;
use crate::records::{opt_number, opt_text};
use crate::value::{SqlValue, SqlValueView};

verus! {

/// A request to change a task. A field that is `None` is left as it is.
#[derive(Debug)]
pub struct TaskUpdate {
    pub content: Option<String>,
    pub status: Option<String>,
    pub priority: Option<i32>,
    pub tags: Option<String>,
    pub time_duration: Option<i32>,
    pub due_date: Option<String>,
    pub completed_at: Option<String>,
}

/// The mathematical content of a [`TaskUpdate`].
pub struct TaskUpdateView {
    pub content: Option<Seq<char>>,
    pub status: Option<Seq<char>>,
    pub priority: Option<int>,
    pub tags: Option<Seq<char>>,
    pub time_duration: Option<int>,
    pub due_date: Option<Seq<char>>,
    pub completed_at: Option<Seq<char>>,
}

impl TaskUpdateView {
    /// No field is present.
    pub open spec fn is_empty(self) -> bool {
        &&& self.content is None
        &&& self.status is None
        &&& self.priority is None
        &&& self.tags is None
        &&& self.time_duration is None
        &&& self.due_date is None
        &&& self.completed_at is None
    }
}

impl View for TaskUpdate {
    type V = TaskUpdateView;

    open spec fn view(&self) -> TaskUpdateView {
        TaskUpdateView {
            content: opt_text(self.content),
            status: opt_text(self.status),
            priority: opt_number(self.priority),
            tags: opt_text(self.tags),
            time_duration: opt_number(self.time_duration),
            due_date: opt_text(self.due_date),
            completed_at: opt_text(self.completed_at),
        }
    }
}

/// One updatable field together with the value it is to get.
#[derive(Debug, PartialEq, Eq)]
pub enum Assignment {
    Content(String),
    Status(String),
    Priority(i32),
    Tags(String),
    TimeDuration(i32),
    DueDate(String),
    CompletedAt(String),
}

/// The mathematical content of an [`Assignment`].
pub enum AssignmentView {
    Content(Seq<char>),
    Status(Seq<char>),
    Priority(int),
    Tags(Seq<char>),
    TimeDuration(int),
    DueDate(Seq<char>),
    CompletedAt(Seq<char>),
}

impl AssignmentView {
    /// The column that the assignment writes.
    pub open spec fn column(self) -> Seq<char> {
        match self {
            AssignmentView::Content(_) => "content"@,
            AssignmentView::Status(_) => "status"@,
            AssignmentView::Priority(_) => "priority"@,
            AssignmentView::Tags(_) => "tags"@,
            AssignmentView::TimeDuration(_) => "time_duration"@,
            AssignmentView::DueDate(_) => "due_date"@,
            AssignmentView::CompletedAt(_) => "completed_at"@,
        }
    }

    /// The value that the assignment binds.
    pub open spec fn value(self) -> SqlValueView {
        match self {
            AssignmentView::Content(s) => SqlValueView::Text(s),
            AssignmentView::Status(s) => SqlValueView::Text(s),
            AssignmentView::Priority(n) => SqlValueView::Integer(n),
            AssignmentView::Tags(s) => SqlValueView::Text(s),
            AssignmentView::TimeDuration(n) => SqlValueView::Integer(n),
            AssignmentView::DueDate(s) => SqlValueView::Text(s),
            AssignmentView::CompletedAt(s) => SqlValueView::Text(s),
        }
    }

    /// The place of the assignment's field in the fixed order of the
    /// updatable fields.
    pub open spec fn rank(self) -> int {
        match self {
            AssignmentView::Content(_) => 0,
            AssignmentView::Status(_) => 1,
            AssignmentView::Priority(_) => 2,
            AssignmentView::Tags(_) => 3,
            AssignmentView::TimeDuration(_) => 4,
            AssignmentView::DueDate(_) => 5,
            AssignmentView::CompletedAt(_) => 6,
        }
    }
}

impl View for Assignment {
    type V = AssignmentView;

    open spec fn view(&self) -> AssignmentView {
        match self {
            Assignment::Content(s) => AssignmentView::Content(s@),
            Assignment::Status(s) => AssignmentView::Status(s@),
            Assignment::Priority(n) => AssignmentView::Priority(*n as int),
            Assignment::Tags(s) => AssignmentView::Tags(s@),
            Assignment::TimeDuration(n) => AssignmentView::TimeDuration(*n as int),
            Assignment::DueDate(s) => AssignmentView::DueDate(s@),
            Assignment::CompletedAt(s) => AssignmentView::CompletedAt(s@),
        }
    }
}

impl Assignment {
    /// The name of the column that the assignment writes.
    pub fn column(&self) -> (name: &'static str)
        ensures
            name@ == self@.column(),
    {
        match self {
            Assignment::Content(_) => "content",
            Assignment::Status(_) => "status",
            Assignment::Priority(_) => "priority",
            Assignment::Tags(_) => "tags",
            Assignment::TimeDuration(_) => "time_duration",
            Assignment::DueDate(_) => "due_date",
            Assignment::CompletedAt(_) => "completed_at",
        }
    }

    /// The value that the assignment binds to its placeholder.
    pub fn value(&self) -> (bound: SqlValue)
        ensures
            bound@ == self@.value(),
    {
        match self {
            Assignment::Content(s) => SqlValue::Text(s.clone()),
            Assignment::Status(s) => SqlValue::Text(s.clone()),
            Assignment::Priority(n) => SqlValue::Integer(*n as i64),
            Assignment::Tags(s) => SqlValue::Text(s.clone()),
            Assignment::TimeDuration(n) => SqlValue::Integer(*n as i64),
            Assignment::DueDate(s) => SqlValue::Text(s.clone()),
            Assignment::CompletedAt(s) => SqlValue::Text(s.clone()),
        }
    }
}

/// The mathematical content of a list of assignments.
pub open spec fn plan_view(plan: Seq<Assignment>) -> Seq<AssignmentView> {
    Seq::new(plan.len(), |i: int| plan[i]@)
}

/// Number of updatable fields.
pub const FIELD_COUNT: usize = 7;

impl TaskUpdateView {
    /// The assignment that the request holds for the field at place `rank`
    /// of the fixed order, if that field is present.
    pub open spec fn field(self, rank: int) -> Option<AssignmentView> {
        if rank == 0 {
            match self.content {
                Some(s) => Some(AssignmentView::Content(s)),
                None => None,
            }
        } else if rank == 1 {
            match self.status {
                Some(s) => Some(AssignmentView::Status(s)),
                None => None,
            }
        } else if rank == 2 {
            match self.priority {
                Some(n) => Some(AssignmentView::Priority(n)),
                None => None,
            }
        } else if rank == 3 {
            match self.tags {
                Some(s) => Some(AssignmentView::Tags(s)),
                None => None,
            }
        } else if rank == 4 {
            match self.time_duration {
                Some(n) => Some(AssignmentView::TimeDuration(n)),
                None => None,
            }
        } else if rank == 5 {
            match self.due_date {
                Some(s) => Some(AssignmentView::DueDate(s)),
                None => None,
            }
        } else if rank == 6 {
            match self.completed_at {
                Some(s) => Some(AssignmentView::CompletedAt(s)),
                None => None,
            }
        } else {
            None
        }
    }
}

/// A field as a list: one assignment if it is present, none if not.
pub open spec fn present(field: Option<AssignmentView>) -> Seq<AssignmentView> {
    match field {
        Some(a) => seq![a],
        None => Seq::empty(),
    }
}

/// The assignments for the present fields among the first `count` of the
/// fixed order, in that order.
pub open spec fn plan_upto(update: TaskUpdateView, count: nat) -> Seq<AssignmentView>
    decreases count,
{
    if count == 0 {
        Seq::empty()
    } else {
        plan_upto(update, (count - 1) as nat) + present(update.field(count - 1))
    }
}

/// The assignments that a request asks for: its present fields, in the
/// fixed order content, status, priority, tags, time_duration, due_date,
/// completed_at.
pub open spec fn spec_plan(update: TaskUpdateView) -> Seq<AssignmentView> {
    plan_upto(update, FIELD_COUNT as nat)
}

/// The mathematical content of an assignment that may be absent.
pub open spec fn opt_assignment(field: Option<Assignment>) -> Option<AssignmentView> {
    match field {
        Some(a) => Some(a@),
        None => None,
    }
}

/// Adds the assignment for one field to a plan if the field is present.
fn extend_plan(plan: &mut Vec<Assignment>, field: Option<Assignment>)
    ensures
        plan_view(final(plan)@) == plan_view(old(plan)@) + present(opt_assignment(field)),
{
    let ghost before = plan@;
    match field {
        Some(a) => {
            plan.push(a);
            assert(plan_view(plan@) =~= plan_view(before) + seq![a@]);
        },
        None => {
            assert(plan_view(plan@) =~= plan_view(before) + Seq::<AssignmentView>::empty());
        },
    }
}

/// Lists the assignments that a request asks for: one for each field that
/// is present, in the fixed order of the fields, none for a field that is
/// absent.
pub fn plan_update(update: TaskUpdate) -> (plan: Vec<Assignment>)
    ensures
        plan_view(plan@) == spec_plan(update@),
{
    let ghost u = update@;
    let mut plan: Vec<Assignment> = Vec::new();
    assert(plan_view(plan@) =~= plan_upto(u, 0));
    extend_plan(
        &mut plan,
        match update.content {
            Some(s) => Some(Assignment::Content(s)),
            None => None,
        },
    );
    assert(plan_view(plan@) == plan_upto(u, 1));
    extend_plan(
        &mut plan,
        match update.status {
            Some(s) => Some(Assignment::Status(s)),
            None => None,
        },
    );
    assert(plan_view(plan@) == plan_upto(u, 2));
    extend_plan(
        &mut plan,
        match update.priority {
            Some(n) => Some(Assignment::Priority(n)),
            None => None,
        },
    );
    assert(plan_view(plan@) == plan_upto(u, 3));
    extend_plan(
        &mut plan,
        match update.tags {
            Some(s) => Some(Assignment::Tags(s)),
            None => None,
        },
    );
    assert(plan_view(plan@) == plan_upto(u, 4));
    extend_plan(
        &mut plan,
        match update.time_duration {
            Some(n) => Some(Assignment::TimeDuration(n)),
            None => None,
        },
    );
    assert(plan_view(plan@) == plan_upto(u, 5));
    extend_plan(
        &mut plan,
        match update.due_date {
            Some(s) => Some(Assignment::DueDate(s)),
            None => None,
        },
    );
    assert(plan_view(plan@) == plan_upto(u, 6));
    extend_plan(
        &mut plan,
        match update.completed_at {
            Some(s) => Some(Assignment::CompletedAt(s)),
            None => None,
        },
    );
    assert(plan_view(plan@) == plan_upto(u, 7));
    plan
}

/// A request asks for no assignment exactly when none of its fields is
/// present.
pub proof fn lemma_plan_is_empty(update: TaskUpdateView)
    ensures
        spec_plan(update).len() == 0 <==> update.is_empty(),
{
    reveal_with_fuel(plan_upto, 8);
}

/// The assignments for the first `count` fields stand in the fixed order
/// of the fields, hold what the request holds, and leave out no field
/// that is present.
pub proof fn lemma_plan_upto_is_ordered(update: TaskUpdateView, count: nat)
    requires
        count <= FIELD_COUNT,
    ensures
        forall|i: int|
            0 <= i < plan_upto(update, count).len() ==> 0 <= (#[trigger] plan_upto(
                update,
                count,
            )[i]).rank() < count,
        forall|i: int|
            0 <= i < plan_upto(update, count).len() ==> update.field(
                (#[trigger] plan_upto(update, count)[i]).rank(),
            ) == Some(plan_upto(update, count)[i]),
        forall|i: int, j: int|
            0 <= i < j < plan_upto(update, count).len() ==> plan_upto(update, count)[i].rank()
                < plan_upto(update, count)[j].rank(),
        forall|rank: int|
            0 <= rank < count && update.field(rank) is Some ==> plan_upto(update, count).contains(
                #[trigger] update.field(rank)->0,
            ),
    decreases count,
{
    if count > 0 {
        let before = plan_upto(update, (count - 1) as nat);
        let now = plan_upto(update, count);
        lemma_plan_upto_is_ordered(update, (count - 1) as nat);
        assert forall|i: int| 0 <= i < now.len() implies 0 <= (#[trigger] now[i]).rank() < count
            && update.field(now[i].rank()) == Some(now[i]) by {
            if i < before.len() {
                assert(now[i] == before[i]);
            }
        }
        assert forall|i: int, j: int| 0 <= i < j < now.len() implies now[i].rank()
            < now[j].rank() by {
            assert(now[i] == before[i]);
            if j < before.len() {
                assert(now[j] == before[j]);
            }
        }
        assert forall|rank: int| 0 <= rank < count && update.field(rank) is Some implies now.contains(
            #[trigger] update.field(rank)->0,
        ) by {
            if rank < count - 1 {
                let k = choose|k: int|
                    0 <= k < before.len() && before[k] == update.field(rank)->0;
                assert(now[k] == update.field(rank)->0);
            } else {
                assert(now[now.len() - 1] == update.field(rank)->0);
            }
        }
    }
}

/// The plan of a request is fixed by the request alone: it holds one
/// assignment for each field that is present, with the value given there,
/// none for a field that is absent, and it holds them in the fixed order
/// of the fields, so no field is assigned twice.
pub proof fn law_plan_follows_the_field_order(update: TaskUpdateView)
    ensures
        forall|i: int|
            0 <= i < spec_plan(update).len() ==> update.field(
                (#[trigger] spec_plan(update)[i]).rank(),
            ) == Some(spec_plan(update)[i]),
        forall|i: int, j: int|
            0 <= i < j < spec_plan(update).len() ==> spec_plan(update)[i].rank() < spec_plan(
                update,
            )[j].rank(),
        forall|rank: int|
            0 <= rank < FIELD_COUNT && update.field(rank) is Some ==> spec_plan(update).contains(
                #[trigger] update.field(rank)->0,
            ),
        spec_plan(update).len() <= FIELD_COUNT,
{
    lemma_plan_upto_is_ordered(update, FIELD_COUNT as nat);
    lemma_plan_upto_len(update, FIELD_COUNT as nat);
}

/// There are no more assignments than fields.
pub proof fn lemma_plan_upto_len(update: TaskUpdateView, count: nat)
    ensures
        plan_upto(update, count).len() <= count,
    decreases count,
{
    if count > 0 {
        lemma_plan_upto_len(update, (count - 1) as nat);
    }
}

} // verus!
