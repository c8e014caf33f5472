//! The repair pass: an earlier defect stored some task statuses as numbers
//! written out in digits. The pass reads the id and the status of every
//! task and sets each such status to the default one.

use vstd::prelude::*;
use crate::database::{engine_failure, fetch, rows_of_width, run};
use crate::engine;
use crate::error::StoreError;
use crate::rows::{integer_of, rows_view, text_of};
use crate::statement;
use crate::status::{corrupted_status, needs_repair};
use crate::value::{Cell, CellView};

verus! {

/// Number of columns in a row of the status query.
pub const STATUS_WIDTH: usize = 2;

/// Whether a row of the status query names a task that has to be
/// repaired: the row is an id and a text, and the text is a corrupted
/// status. A row of any other shape names none.
pub open spec fn is_target(row: Seq<CellView>) -> bool {
    &&& row.len() == STATUS_WIDTH
    &&& integer_of(row[0]) is Some
    &&& text_of(row[1]) is Some
    &&& corrupted_status(text_of(row[1])->0)
}

/// The id in a row of the status query.
pub open spec fn target_id(row: Seq<CellView>) -> int {
    integer_of(row[0])->0
}

/// The ids of the tasks that have to be repaired, in the order of the rows
/// that name them.
pub open spec fn spec_corrupted_ids(rows: Seq<Seq<CellView>>) -> Seq<int> {
    rows.filter(|row: Seq<CellView>| is_target(row)).map_values(
        |row: Seq<CellView>| target_id(row),
    )
}

/// A list of ids as integers.
pub open spec fn ids_view(ids: Seq<i64>) -> Seq<int> {
    ids.map_values(|id: i64| id as int)
}

/// Picks from the rows of the status query the ids of the tasks whose
/// status has to be repaired, in the order of the rows. A row that is not
/// an id and a text is passed over.
pub fn corrupted_ids(rows: &Vec<Vec<Cell>>) -> (ids: Vec<i64>)
    ensures
        ids_view(ids@) == spec_corrupted_ids(rows_view(rows@)),
{
    let ghost views = rows_view(rows@);
    let ghost wanted = |row: Seq<CellView>| is_target(row);
    let ghost id_of = |row: Seq<CellView>| target_id(row);
    let mut ids: Vec<i64> = Vec::new();
    let mut i: usize = 0;
    proof {
        reveal(Seq::filter);
        assert(views.subrange(0, 0) =~= Seq::<Seq<CellView>>::empty());
        assert(ids_view(ids@) =~= views.subrange(0, 0).filter(wanted).map_values(id_of));
    }
    while i < rows.len()
        invariant
            i <= rows@.len(),
            views == rows_view(rows@),
            wanted == |row: Seq<CellView>| is_target(row),
            id_of == |row: Seq<CellView>| target_id(row),
            ids_view(ids@) == views.subrange(0, i as int).filter(wanted).map_values(id_of),
        decreases rows@.len() - i,
    {
        let row = &rows[i];
        let ghost before = views.subrange(0, i as int);
        let ghost now = views.subrange(0, i + 1);
        let ghost old_ids = ids@;
        proof {
            reveal(Seq::filter);
            assert(now.drop_last() =~= before);
            assert(now.last() == crate::rows::cells_view(row@));
        }
        let mut found: Option<i64> = None;
        if row.len() == STATUS_WIDTH {
            match (&row[0], &row[1]) {
                (Cell::Integer(id), Cell::Text(bytes)) => {
                    match core::str::from_utf8(bytes.as_slice()) {
                        Ok(status) => {
                            proof {
                                vstd::utf8::encode_utf8_decode_utf8(status@);
                            }
                            if needs_repair(status) {
                                found = Some(*id);
                            }
                        },
                        Err(_) => {},
                    }
                },
                _ => {},
            }
        }
        assert(found is Some <==> is_target(now.last()));
        match found {
            Some(id) => {
                ids.push(id);
                assert(id as int == target_id(now.last()));
                assert(ids_view(ids@) =~= ids_view(old_ids).push(id as int));
                assert(now.filter(wanted) == before.filter(wanted).push(now.last()));
                assert(now.filter(wanted).map_values(id_of) =~= before.filter(wanted).map_values(
                    id_of,
                ).push(id_of(now.last())));
            },
            None => {
                assert(now.filter(wanted) == before.filter(wanted));
            },
        }
        i += 1;
    }
    proof {
        assert(views.subrange(0, rows@.len() as int) =~= views);
    }
    ids
}

/// What a repair pass did.
#[derive(Debug, PartialEq, Eq)]
pub struct RepairReport {
    /// The ids of the tasks whose status was set to the default one.
    pub repaired: Vec<i64>,
    /// The ids of the tasks that had to be repaired, but for which the
    /// engine failed to carry the repair out. They are as they were.
    pub skipped: Vec<i64>,
}

/// The ids whose writes came out as `wanted`, in the order of the ids:
/// `done` tells for each id, place by place, whether its write succeeded.
pub open spec fn picked(ids: Seq<i64>, done: Seq<bool>, wanted: bool) -> Seq<i64>
    decreases ids.len(),
{
    if ids.len() == 0 || done.len() != ids.len() {
        Seq::empty()
    } else {
        let before = picked(ids.drop_last(), done.drop_last(), wanted);
        if done.last() == wanted {
            before.push(ids.last())
        } else {
            before
        }
    }
}

/// Whether `report` is the report of a pass over `ids` in which the write
/// for the id at place `i` succeeded exactly if `done[i]` holds: the ids
/// whose writes succeeded are the repaired ones, the others the skipped
/// ones, each list in the order of the ids.
pub open spec fn reports(report: RepairReport, ids: Seq<i64>, done: Seq<bool>) -> bool {
    &&& done.len() == ids.len()
    &&& report.repaired@ == picked(ids, done, true)
    &&& report.skipped@ == picked(ids, done, false)
}

/// Notes in the report how the write for the task `id` came out: a task
/// whose write succeeded is added to the repaired ones, a task whose write
/// failed to the skipped ones, and the other list is left as it is.
pub fn note_outcome(report: &mut RepairReport, id: i64, outcome: &Result<usize, StoreError>)
    ensures
        outcome is Ok ==> final(report).repaired@ == old(report).repaired@.push(id),
        outcome is Ok ==> final(report).skipped@ == old(report).skipped@,
        outcome is Err ==> final(report).skipped@ == old(report).skipped@.push(id),
        outcome is Err ==> final(report).repaired@ == old(report).repaired@,
{
    match outcome {
        Ok(_) => {
            report.repaired.push(id);
        },
        Err(_) => {
            report.skipped.push(id);
        },
    }
}

/// One more id with the outcome of its write: it is picked, after the
/// others, exactly if the outcome is the wanted one.
pub proof fn lemma_picked_push(ids: Seq<i64>, done: Seq<bool>, id: i64, ok: bool, wanted: bool)
    requires
        done.len() == ids.len(),
    ensures
        picked(ids.push(id), done.push(ok), wanted) == if ok == wanted {
            picked(ids, done, wanted).push(id)
        } else {
            picked(ids, done, wanted)
        },
{
    assert(ids.push(id).drop_last() =~= ids);
    assert(done.push(ok).drop_last() =~= done);
}

/// A report holds every id of the pass in exactly one of its two lists, as
/// often as the id was listed.
pub proof fn law_report_holds_every_id(report: RepairReport, ids: Seq<i64>, done: Seq<bool>)
    requires
        reports(report, ids, done),
    ensures
        report.repaired@.to_multiset().add(report.skipped@.to_multiset()) == ids.to_multiset(),
        report.repaired@.len() + report.skipped@.len() == ids.len(),
{
    lemma_picked_holds_every_id(ids, done);
}

/// The ids whose writes succeeded and those whose writes failed are
/// together the ids, each as often as it was listed.
pub proof fn lemma_picked_holds_every_id(ids: Seq<i64>, done: Seq<bool>)
    requires
        done.len() == ids.len(),
    ensures
        picked(ids, done, true).to_multiset().add(picked(ids, done, false).to_multiset())
            == ids.to_multiset(),
        picked(ids, done, true).len() + picked(ids, done, false).len() == ids.len(),
    decreases ids.len(),
{
    broadcast use {vstd::seq_lib::group_to_multiset_ensures, vstd::multiset::group_multiset_axioms};

    if ids.len() == 0 {
        let none = Seq::<i64>::empty();
        assert(ids =~= none);
        assert(none.to_multiset().len() == 0);
        assert(none.to_multiset() =~= vstd::multiset::Multiset::<i64>::empty());
        assert(none.to_multiset().add(none.to_multiset()) =~= none.to_multiset());
    } else {
        let front = ids.drop_last();
        let id = ids.last();
        lemma_picked_holds_every_id(front, done.drop_last());
        let good = picked(front, done.drop_last(), true);
        let bad = picked(front, done.drop_last(), false);
        assert(front.push(id) =~= ids);
        vstd::seq_lib::to_multiset_build(front, id);
        vstd::seq_lib::to_multiset_build(good, id);
        vstd::seq_lib::to_multiset_build(bad, id);
        if done.last() {
            assert(good.push(id).to_multiset().add(bad.to_multiset()) =~= good.to_multiset().add(
                bad.to_multiset(),
            ).insert(id));
        } else {
            assert(good.to_multiset().add(bad.push(id).to_multiset()) =~= good.to_multiset().add(
                bad.to_multiset(),
            ).insert(id));
        }
    }
}

/// Sets the status of each listed task to the default one, one statement
/// per task, in the order of the list. A task for which the engine fails
/// is noted as skipped and the pass goes on with the next; a task for
/// which it succeeds is noted as repaired. So the report is that of the
/// ids and the outcomes of their writes, and every listed id ends up in
/// exactly one of its two lists, as often as it was listed.
pub(crate) fn repair_each(conn: &rusqlite::Connection, ids: &Vec<i64>) -> (report: RepairReport)
    ensures
        exists|done: Seq<bool>| #[trigger] reports(report, ids@, done),
        report.repaired@.to_multiset().add(report.skipped@.to_multiset()) == ids@.to_multiset(),
{
    let mut report = RepairReport { repaired: Vec::new(), skipped: Vec::new() };
    let ghost mut done: Seq<bool> = Seq::empty();
    let mut i: usize = 0;
    assert(ids@.subrange(0, 0) =~= Seq::<i64>::empty());
    while i < ids.len()
        invariant
            i <= ids@.len(),
            reports(report, ids@.subrange(0, i as int), done),
        decreases ids@.len() - i,
    {
        let id = ids[i];
        let outcome = run(conn, &statement::reset_status(id));
        let ghost before = ids@.subrange(0, i as int);
        proof {
            assert(ids@.subrange(0, i + 1) =~= before.push(id));
            lemma_picked_push(before, done, id, outcome is Ok, true);
            lemma_picked_push(before, done, id, outcome is Ok, false);
        }
        note_outcome(&mut report, id, &outcome);
        proof {
            done = done.push(outcome is Ok);
        }
        i += 1;
    }
    proof {
        assert(ids@.subrange(0, ids@.len() as int) =~= ids@);
        law_report_holds_every_id(report, ids@, done);
    }
    report
}

/// Whether `made` is the report of a pass over the rows `rows` of the
/// status query: each row has the two cells that were asked for, `ids` are
/// the ids that [`corrupted_ids`] picks from the rows, and `made` reports
/// them by the outcomes `done` of their writes.
pub open spec fn is_pass_over(
    made: RepairReport,
    rows: Seq<Seq<CellView>>,
    ids: Seq<i64>,
    done: Seq<bool>,
) -> bool {
    &&& rows_of_width(rows, STATUS_WIDTH)
    &&& ids_view(ids) == spec_corrupted_ids(rows)
    &&& reports(made, ids, done)
}

/// Runs the repair pass on the store at `path`, over a connection of its
/// own that is closed when the pass ends. Run it once at startup, before
/// the store serves anyone else.
///
/// The ids and statuses are all read before anything is repaired; if that
/// reading fails the pass fails as a whole and has changed nothing. A
/// failure to repair one task does not stop the pass: the task is listed
/// as skipped. A pass over a store that needs no repair changes nothing.
///
/// What comes back is either a failure of the engine, or the report of a
/// pass over the ids that [`corrupted_ids`] picks from the rows that were
/// read, sorted by the outcomes of their writes as [`note_outcome`] says.
pub fn migrate_db(path: &str) -> (report: Result<RepairReport, StoreError>)
    ensures
        report matches Err(e) ==> engine_failure(e),
        report is Ok ==> exists|rows: Seq<Seq<CellView>>, ids: Seq<i64>, done: Seq<bool>|
            #[trigger] is_pass_over(report->Ok_0, rows, ids, done),
{
    let conn = match engine::open(path) {
        Ok(conn) => conn,
        Err(_) => {
            return Err(StoreError::NotOpenable);
        },
    };
    proof {
        statement::law_queries_have_no_placeholder();
    }
    match fetch(&conn, statement::SELECT_STATUSES, STATUS_WIDTH) {
        Ok(rows) => {
            let ids = corrupted_ids(&rows);
            let made = repair_each(&conn, &ids);
            let ghost views = rows_view(rows@);
            let ghost done = choose|done: Seq<bool>| #[trigger] reports(made, ids@, done);
            proof {
                crate::database::lemma_rows_of_width(rows@, STATUS_WIDTH);
            }
            let report: Result<RepairReport, StoreError> = Ok(made);
            assert(is_pass_over(report->Ok_0, views, ids@, done));
            report
        },
        Err(error) => Err(error),
    }
}

} // verus!
