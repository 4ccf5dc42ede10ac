//! What holds across operations of the todo table and the handlers.

use vstd::prelude::*;
use crate::models::{InsertView, OperationError, TodoView};
use crate::routes::{failure, one_view, Action};
use crate::table::{lemma_position, newest, position, selects, TableView};

verus! {

proof fn lemma_position_at(rows: Seq<TodoView>, id: int, p: int)
    requires
        0 <= p < rows.len(),
        rows[p].id == id,
        forall|j: int| p < j < rows.len() ==> #[trigger] rows[j].id != id,
    ensures
        position(rows, id) == p,
    decreases rows.len(),
{
    if p < rows.len() - 1 {
        assert(rows.last().id != id);
        let d = rows.drop_last();
        assert forall|j: int| p < j < d.len() implies #[trigger] d[j].id != id by {
            assert(d[j] == rows[j]);
        }
        lemma_position_at(d, id, p);
    }
}

proof fn lemma_position_absent(rows: Seq<TodoView>, id: int)
    requires
        forall|j: int| 0 <= j < rows.len() ==> #[trigger] rows[j].id != id,
    ensures
        position(rows, id) == -1,
{
    lemma_position(rows, id);
}

/// An insert stores a row that echoes the payload, under an id that no row of
/// the table holds and that is larger than every id the table has assigned.
pub proof fn lemma_insert_fresh(t: TableView, ins: InsertView)
    requires
        t.wf(),
    ensures
        t.insert(ins).1 matches Ok(row) ==> {
            &&& row.title == Some(ins.title)
            &&& row.description == Some(ins.description)
            &&& row.completed == Some(ins.completed)
            &&& row.id == t.next_id
            &&& t.insert(ins).0.next_id == t.next_id + 1
            &&& t.get_by_id(row.id) == Err::<TodoView, OperationError>(OperationError::NotFound)
            &&& forall|i: int| 0 <= i < t.rows.len() ==> #[trigger] t.rows[i].id < row.id
        },
{
    lemma_position_absent(t.rows, t.next_id);
}

/// Reading the id that an insert returned gives back the inserted row.
pub proof fn lemma_read_after_insert(t: TableView, ins: InsertView)
    requires
        t.wf(),
    ensures
        t.insert(ins).1 matches Ok(row) ==> t.insert(ins).0.get_by_id(row.id) == Ok::<TodoView, OperationError>(row),
{
}

/// Toggling the same id twice restores the table, and the second toggle
/// returns the row as it was before the first.
pub proof fn lemma_toggle_involution(t: TableView, id: int)
    requires
        t.wf(),
    ensures
        t.toggle_completed(id).0.toggle_completed(id).0 == t,
        t.toggle_completed(id).1 matches Ok(_) ==> t.toggle_completed(id).0.toggle_completed(id).1 == t.get_by_id(id),
        t.toggle_completed(id).1 matches Err(e) ==> e == OperationError::NotFound
            && t.toggle_completed(id).0.toggle_completed(id).1 == Err::<TodoView, OperationError>(OperationError::NotFound),
{
    lemma_position(t.rows, id);
    let p = t.find(id);
    if p >= 0 {
        let t1 = t.toggle_completed(id).0;
        lemma_position_at(t1.rows, id, p);
        assert(t1.toggle_completed(id).0.rows =~= t.rows);
    }
}

/// After a delete succeeds, reading that id fails with `NotFound`, and the GET
/// handler answers with its generic server error.
pub proof fn lemma_get_after_delete(t: TableView, id: int)
    requires
        t.wf(),
    ensures
        t.delete_by_id(id).1 matches Ok(_) ==> {
            &&& t.delete_by_id(id).0.get_by_id(id) == Err::<TodoView, OperationError>(OperationError::NotFound)
            &&& one_view(t.delete_by_id(id).0.get_by_id(id), Action::GetOne) == failure(Action::GetOne)
        },
{
    lemma_position(t.rows, id);
    let p = t.find(id);
    if p >= 0 {
        let rows = t.rows.remove(p);
        assert forall|j: int| 0 <= j < rows.len() implies #[trigger] rows[j].id != id by {
            if j < p {
                assert(rows[j] == t.rows[j]);
                assert(t.rows[j].id < t.rows[p].id);
            } else {
                assert(rows[j] == t.rows[j + 1]);
                assert(t.rows[p].id < t.rows[j + 1].id);
            }
        }
        lemma_position_absent(rows, id);
    }
}

/// A listing holds at most `cap` rows, each a row of the table that `want`
/// selects, and when ids increase along `rows` it lists them by id descending.
pub proof fn lemma_newest(rows: Seq<TodoView>, want: Option<bool>, cap: nat)
    ensures
        newest(rows, want, cap).len() <= cap,
        forall|k: int| 0 <= k < newest(rows, want, cap).len() ==> selects(want, #[trigger] newest(rows, want, cap)[k])
            && rows.contains(newest(rows, want, cap)[k]),
        (forall|i: int, j: int| 0 <= i < j < rows.len() ==> #[trigger] rows[i].id < #[trigger] rows[j].id) ==>
            forall|a: int, b: int| 0 <= a < b < newest(rows, want, cap).len() ==>
                #[trigger] newest(rows, want, cap)[a].id > #[trigger] newest(rows, want, cap)[b].id,
    decreases rows.len(),
{
    if rows.len() > 0 && cap > 0 {
        let d = rows.drop_last();
        let c = if selects(want, rows.last()) { (cap - 1) as nat } else { cap };
        lemma_newest(d, want, c);
        let n = newest(rows, want, cap);
        let m = newest(d, want, c);
        assert forall|k: int| 0 <= k < m.len() implies rows.contains(#[trigger] m[k]) by {
            let w = choose|w: int| 0 <= w < d.len() && d[w] == m[k];
            assert(rows[w] == m[k]);
        }
        if selects(want, rows.last()) {
            assert(n == seq![rows.last()] + m);
            assert forall|k: int| 0 <= k < n.len() implies selects(want, #[trigger] n[k]) && rows.contains(n[k]) by {
                if k == 0 {
                    assert(rows[rows.len() - 1] == n[0]);
                } else {
                    assert(n[k] == m[k - 1]);
                }
            }
            if forall|i: int, j: int| 0 <= i < j < rows.len() ==> #[trigger] rows[i].id < #[trigger] rows[j].id {
                assert forall|i: int, j: int| 0 <= i < j < d.len() implies #[trigger] d[i].id < #[trigger] d[j].id by {
                    assert(d[i] == rows[i] && d[j] == rows[j]);
                }
                assert forall|a: int, b: int| 0 <= a < b < n.len() implies #[trigger] n[a].id > #[trigger] n[b].id by {
                    if a == 0 {
                        let w = choose|w: int| 0 <= w < d.len() && d[w] == m[b - 1];
                        assert(rows[w] == n[b]);
                    } else {
                        assert(n[a] == m[a - 1] && n[b] == m[b - 1]);
                    }
                }
            }
        } else {
            if forall|i: int, j: int| 0 <= i < j < rows.len() ==> #[trigger] rows[i].id < #[trigger] rows[j].id {
                assert forall|i: int, j: int| 0 <= i < j < d.len() implies #[trigger] d[i].id < #[trigger] d[j].id by {
                    assert(d[i] == rows[i] && d[j] == rows[j]);
                }
            }
        }
    }
}

/// The completed filter lists only completed rows, the incomplete filter only
/// incomplete ones, at most `ROW_CAP` of them, all rows of the table, by id
/// descending.
pub proof fn lemma_filter_by_completed(t: TableView, completed: bool)
    requires
        t.wf(),
    ensures
        t.filter_by_completed(completed).len() <= 200,
        forall|k: int| 0 <= k < t.filter_by_completed(completed).len() ==>
            (#[trigger] t.filter_by_completed(completed)[k]).completed == Some(completed)
            && t.rows.contains(t.filter_by_completed(completed)[k]),
        forall|a: int, b: int| 0 <= a < b < t.filter_by_completed(completed).len() ==>
            #[trigger] t.filter_by_completed(completed)[a].id > #[trigger] t.filter_by_completed(completed)[b].id,
{
    lemma_newest(t.rows, Some(completed), 200);
}

} // verus!
