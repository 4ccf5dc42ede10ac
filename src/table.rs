//! An in-memory todo table with the data-access operations of the service:
//! the storage handle that handlers and tests are given.

use vstd::prelude::*;
use crate::models::{InsertView, OperationError, Todo, TodoInsert, TodoView};

verus! {

/// Most rows that a listing returns.
pub const ROW_CAP: i64 = 200;

/// Highest id that the table can assign.
pub const MAX_ID: i64 = 2147483647;

/// Mathematical value of a table: its rows in insertion order, and the id that
/// the next insert assigns.
pub ghost struct TableView {
    pub rows: Seq<TodoView>,
    pub next_id: int,
}

/// Whether a listing that asks for `want` keeps `t`; `None` keeps every row.
pub open spec fn selects(want: Option<bool>, t: TodoView) -> bool {
    match want {
        Some(c) => t.completed == Some(c),
        None => true,
    }
}

/// The newest `cap` rows of `rows` that `want` selects, newest first.
pub open spec fn newest(rows: Seq<TodoView>, want: Option<bool>, cap: nat) -> Seq<TodoView>
    decreases rows.len(),
{
    if rows.len() == 0 || cap == 0 {
        Seq::empty()
    } else if selects(want, rows.last()) {
        seq![rows.last()] + newest(rows.drop_last(), want, (cap - 1) as nat)
    } else {
        newest(rows.drop_last(), want, cap)
    }
}

/// Index of the last row of `rows` whose id is `id`, or -1 if there is none.
pub open spec fn position(rows: Seq<TodoView>, id: int) -> int
    decreases rows.len(),
{
    if rows.len() == 0 {
        -1
    } else if rows.last().id == id {
        rows.len() - 1
    } else {
        position(rows.drop_last(), id)
    }
}

impl TableView {
    /// Ids strictly increase in insertion order, lie in `1..next_id`, and
    /// `next_id` does not pass one past the highest id.
    pub open spec fn wf(self) -> bool {
        &&& 1 <= self.next_id <= MAX_ID + 1
        &&& forall|i: int, j: int|
            0 <= i < j < self.rows.len() ==> #[trigger] self.rows[i].id < #[trigger] self.rows[j].id
        &&& forall|i: int| 0 <= i < self.rows.len() ==> 1 <= #[trigger] self.rows[i].id < self.next_id
    }

    pub open spec fn find(self, id: int) -> int {
        position(self.rows, id)
    }

    /// Outcome of inserting `ins`: the new table and the stored row.
    pub open spec fn insert(self, ins: InsertView) -> (TableView, Result<TodoView, OperationError>) {
        if self.next_id > MAX_ID {
            (self, Err(OperationError::StorageError))
        } else {
            let row = TodoView::stored(self.next_id, ins);
            (TableView { rows: self.rows.push(row), next_id: self.next_id + 1 }, Ok(row))
        }
    }

    pub open spec fn get_all(self) -> Seq<TodoView> {
        newest(self.rows, None, ROW_CAP as nat)
    }

    pub open spec fn get_by_id(self, id: int) -> Result<TodoView, OperationError> {
        if self.find(id) < 0 {
            Err(OperationError::NotFound)
        } else {
            Ok(self.rows[self.find(id)])
        }
    }

    pub open spec fn update_by_id(self, id: int, ins: InsertView) -> (TableView, Result<TodoView, OperationError>) {
        let p = self.find(id);
        if p < 0 {
            (self, Err(OperationError::NotFound))
        } else {
            let row = TodoView::stored(id, ins);
            (TableView { rows: self.rows.update(p, row), ..self }, Ok(row))
        }
    }

    pub open spec fn delete_by_id(self, id: int) -> (TableView, Result<int, OperationError>) {
        let p = self.find(id);
        if p < 0 {
            (self, Err(OperationError::NotFound))
        } else {
            (TableView { rows: self.rows.remove(p), ..self }, Ok(id))
        }
    }

    pub open spec fn toggle_completed(self, id: int) -> (TableView, Result<TodoView, OperationError>) {
        let p = self.find(id);
        if p < 0 {
            (self, Err(OperationError::NotFound))
        } else {
            let row = self.rows[p].toggled();
            (TableView { rows: self.rows.update(p, row), ..self }, Ok(row))
        }
    }

    pub open spec fn filter_by_completed(self, completed: bool) -> Seq<TodoView> {
        newest(self.rows, Some(completed), ROW_CAP as nat)
    }
}

pub open spec fn views(rows: Seq<Todo>) -> Seq<TodoView> {
    rows.map_values(|t: Todo| t@)
}

/// The todo table.
pub struct TodoTable {
    rows: Vec<Todo>,
    next_id: i64,
}

impl View for TodoTable {
    type V = TableView;

    closed spec fn view(&self) -> TableView {
        TableView { rows: views(self.rows@), next_id: self.next_id as int }
    }
}

/// `position` finds the last row with the id, and -1 exactly when none has it.
pub proof fn lemma_position(rows: Seq<TodoView>, id: int)
    ensures
        -1 <= position(rows, id) < rows.len(),
        position(rows, id) >= 0 ==> rows[position(rows, id)].id == id,
        forall|j: int| position(rows, id) < j < rows.len() ==> #[trigger] rows[j].id != id,
    decreases rows.len(),
{
    if rows.len() > 0 && rows.last().id != id {
        lemma_position(rows.drop_last(), id);
        assert forall|j: int| position(rows, id) < j < rows.len() implies #[trigger] rows[j].id != id by {
            if j < rows.len() - 1 {
                assert(rows[j] == rows.drop_last()[j]);
            }
        }
    }
}

proof fn lemma_position_prefix(rows: Seq<TodoView>, i: int, id: int)
    requires
        0 < i <= rows.len(),
        rows[i - 1].id != id,
    ensures
        position(rows.subrange(0, i), id) == position(rows.subrange(0, i - 1), id),
{
    assert(rows.subrange(0, i).drop_last() =~= rows.subrange(0, i - 1));
}

impl TodoTable {
    pub closed spec fn wf(&self) -> bool {
        self@.wf()
    }

    /// An empty table whose first insert assigns id 1.
    pub fn new() -> (r: TodoTable)
        ensures
            r.wf(),
            r@ == (TableView { rows: Seq::empty(), next_id: 1 }),
    {
        let r = TodoTable { rows: Vec::new(), next_id: 1 };
        assert(r@.rows =~= Seq::<TodoView>::empty());
        r
    }

    fn locate(&self, id: i32) -> (r: Option<usize>)
        ensures
            match r {
                Some(p) => p as int == self@.find(id as int) && p < self.rows.len(),
                None => self@.find(id as int) < 0,
            },
    {
        let ghost all = views(self.rows@);
        let mut i: usize = self.rows.len();
        assert(all.subrange(0, i as int) =~= all);
        while i > 0
            invariant
                i <= self.rows.len(),
                all == views(self.rows@),
                position(all.subrange(0, i as int), id as int) == position(all, id as int),
            decreases i,
        {
            if self.rows[i - 1].id == id {
                assert(all.subrange(0, i as int).last() == all[i - 1]);
                return Some(i - 1);
            }
            proof {
                lemma_position_prefix(all, i as int, id as int);
            }
            i = i - 1;
        }
        None
    }
}


fn keeps(want: Option<bool>, t: &Todo) -> (r: bool)
    ensures
        r == selects(want, t@),
{
    match want {
        Some(c) => match t.completed {
            Some(b) => b == c,
            None => false,
        },
        None => true,
    }
}

proof fn lemma_views_push(rows: Seq<Todo>, t: Todo)
    ensures
        views(rows.push(t)) == views(rows).push(t@),
{
    assert(views(rows.push(t)) =~= views(rows).push(t@));
}

impl TodoTable {
    /// The newest `cap` rows that `want` selects, newest first.
    fn listing(&self, want: Option<bool>, cap: i64) -> (r: Vec<Todo>)
        requires
            cap >= 0,
        ensures
            views(r@) == newest(self@.rows, want, cap as nat),
    {
        let ghost all = views(self.rows@);
        let mut r: Vec<Todo> = Vec::new();
        let mut i: usize = self.rows.len();
        assert(all.subrange(0, i as int) =~= all);
        assert(views(r@) =~= Seq::<TodoView>::empty());
        while i > 0 && (r.len() as i64) < cap
            invariant
                i <= self.rows.len(),
                all == views(self.rows@),
                r.len() <= cap,
                views(r@) + newest(all.subrange(0, i as int), want, (cap - r.len()) as nat)
                    == newest(all, want, cap as nat),
            decreases i,
        {
            let ghost k = (cap - r.len()) as nat;
            let ghost pre = all.subrange(0, i as int);
            assert(pre.drop_last() =~= all.subrange(0, i - 1));
            assert(pre.last() == all[i - 1]);
            if keeps(want, &self.rows[i - 1]) {
                let row = self.rows[i - 1].duplicate();
                proof {
                    lemma_views_push(r@, row);
                    assert(views(r@) + newest(pre, want, k) =~= views(r@).push(row@) + newest(
                        all.subrange(0, i - 1),
                        want,
                        (k - 1) as nat,
                    ));
                }
                r.push(row);
            }
            i = i - 1;
        }
        let ghost rest = newest(all.subrange(0, i as int), want, (cap - r.len()) as nat);
        assert(rest =~= Seq::<TodoView>::empty());
        assert(views(r@) + rest =~= views(r@));
        r
    }
}

impl Todo {
    /// Stores `todo` as a new row under the next id and returns that row;
    /// fails with `StorageError` once every id has been assigned.
    pub fn insert(pool: &mut TodoTable, todo: TodoInsert) -> (r: Result<Todo, OperationError>)
        requires
            old(pool).wf(),
        ensures
            final(pool).wf(),
            (final(pool)@, match r {
                Ok(t) => Ok(t@),
                Err(e) => Err(e),
            }) == old(pool)@.insert(todo@),
    {
        if pool.next_id > MAX_ID {
            return Err(OperationError::StorageError);
        }
        let id = pool.next_id as i32;
        let row = Todo::stored(id, &todo);
        let copy = row.duplicate();
        proof {
            lemma_views_push(pool.rows@, copy);
        }
        pool.rows.push(copy);
        pool.next_id = pool.next_id + 1;
        Ok(row)
    }

    /// The newest `ROW_CAP` rows, newest first.
    pub fn get_all(pool: &TodoTable) -> (r: Vec<Todo>)
        ensures
            views(r@) == pool@.get_all(),
    {
        pool.listing(None, ROW_CAP)
    }

    /// The row whose id is `id`.
    pub fn get_by_id(pool: &TodoTable, id: i32) -> (r: Result<Todo, OperationError>)
        ensures
            match r {
                Ok(t) => Ok(t@),
                Err(e) => Err(e),
            } == pool@.get_by_id(id as int),
    {
        match pool.locate(id) {
            Some(p) => Ok(pool.rows[p].duplicate()),
            None => Err(OperationError::NotFound),
        }
    }

    /// Overwrites title, description and completed of the row whose id is `id`.
    pub fn update_by_id(pool: &mut TodoTable, id: i32, todo: TodoInsert) -> (r: Result<Todo, OperationError>)
        requires
            old(pool).wf(),
        ensures
            final(pool).wf(),
            (final(pool)@, match r {
                Ok(t) => Ok(t@),
                Err(e) => Err(e),
            }) == old(pool)@.update_by_id(id as int, todo@),
    {
        match pool.locate(id) {
            Some(p) => {
                let row = Todo::stored(id, &todo);
                let copy = row.duplicate();
                proof {
                    lemma_position(pool@.rows, id as int);
                }
                pool.rows.set(p, copy);
                proof {
                    assert(views(pool.rows@) =~= views(old(pool).rows@).update(p as int, row@));
                }
                Ok(row)
            },
            None => Err(OperationError::NotFound),
        }
    }

    /// Removes the row whose id is `id` and returns that id.
    pub fn delete_by_id(pool: &mut TodoTable, id: i32) -> (r: Result<i32, OperationError>)
        requires
            old(pool).wf(),
        ensures
            final(pool).wf(),
            (final(pool)@, match r {
                Ok(i) => Ok(i as int),
                Err(e) => Err(e),
            }) == old(pool)@.delete_by_id(id as int),
    {
        match pool.locate(id) {
            Some(p) => {
                pool.rows.remove(p);
                proof {
                    assert(views(pool.rows@) =~= views(old(pool).rows@).remove(p as int));
                }
                Ok(id)
            },
            None => Err(OperationError::NotFound),
        }
    }

    /// Negates `completed` of the row whose id is `id` and returns the row.
    pub fn toggle_completed(pool: &mut TodoTable, id: i32) -> (r: Result<Todo, OperationError>)
        requires
            old(pool).wf(),
        ensures
            final(pool).wf(),
            (final(pool)@, match r {
                Ok(t) => Ok(t@),
                Err(e) => Err(e),
            }) == old(pool)@.toggle_completed(id as int),
    {
        match pool.locate(id) {
            Some(p) => {
                let row = pool.rows[p].toggled();
                let copy = row.duplicate();
                pool.rows.set(p, copy);
                proof {
                    assert(views(pool.rows@) =~= views(old(pool).rows@).update(p as int, row@));
                }
                Ok(row)
            },
            None => Err(OperationError::NotFound),
        }
    }

    /// The newest `ROW_CAP` rows whose `completed` equals `completed`, newest first.
    pub fn filter_by_completed(pool: &TodoTable, completed: bool) -> (r: Vec<Todo>)
        ensures
            views(r@) == pool@.filter_by_completed(completed),
    {
        pool.listing(Some(completed), ROW_CAP)
    }
}

} // verus!
