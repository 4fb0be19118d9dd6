//! The `todos` table: what it holds and what its four operations do.
//!
//! [`TableView`] is the table as a mathematical value and defines the
//! operations; [`Table`] keeps the same table in memory.

use crate::error::StoreError;
use crate::todo::{todo_views, Todo, TodoView};
use vstd::prelude::*;
use vstd::string::*;

verus! {

/// The table as a mathematical value: its rows in the order in which they are
/// listed, and the highest id handed out so far.
pub struct TableView {
    pub rows: Seq<TodoView>,
    pub last_id: int,
}

impl TableView {
    /// The table before anything was created.
    pub open spec fn empty() -> TableView {
        TableView { rows: Seq::empty(), last_id: 0 }
    }

    /// Ids are positive, none above the last one handed out, and the rows
    /// stand in strictly ascending order of id; so no id occurs twice.
    pub open spec fn wf(self) -> bool {
        &&& 0 <= self.last_id <= i64::MAX
        &&& forall|i: int| 0 <= i < self.rows.len() ==> 1 <= (#[trigger] self.rows[i]).id <= self.last_id
        &&& forall|i: int, j: int|
            0 <= i < j < self.rows.len() ==> (#[trigger] self.rows[i]).id < (#[trigger] self.rows[j]).id
    }

    /// Whether a row with this id is stored.
    pub open spec fn contains_id(self, id: int) -> bool {
        exists|i: int| 0 <= i < self.rows.len() && (#[trigger] self.rows[i]).id == id
    }

    /// Whether an id is left for one more row.
    pub open spec fn has_room(self) -> bool {
        self.last_id < i64::MAX
    }

    /// The table after `create`: a new row at the end, under the next id and
    /// not done. Without an id left the table stays as it is.
    pub open spec fn create(self, description: Seq<char>) -> TableView {
        if self.has_room() {
            TableView {
                rows: self.rows.push(TodoView { id: self.last_id + 1, description, done: false }),
                last_id: self.last_id + 1,
            }
        } else {
            self
        }
    }

    /// The table after `update`: the row with this id, if there is one, holds
    /// the new description and flag; every other row is as before.
    pub open spec fn update(self, id: int, description: Seq<char>, done: bool) -> TableView {
        TableView {
            rows: self.rows.map_values(
                |row: TodoView|
                    if row.id == id {
                        TodoView { id, description, done }
                    } else {
                        row
                    },
            ),
            last_id: self.last_id,
        }
    }

    /// The table after `delete`: the rows with another id, in their order.
    pub open spec fn delete(self, id: int) -> TableView {
        TableView { rows: self.rows.filter(|row: TodoView| row.id != id), last_id: self.last_id }
    }
}

/// The message of the failure reported when no id is left for a new row.
pub open spec fn full_message() -> Seq<char> {
    "database or disk is full"@
}

/// The `todos` table, kept in memory.
pub struct Table {
    rows: Vec<Todo>,
    last_id: i64,
}

impl View for Table {
    type V = TableView;

    closed spec fn view(&self) -> TableView {
        TableView { rows: todo_views(self.rows@), last_id: self.last_id as int }
    }
}

impl Table {
    /// An empty table.
    pub fn new() -> (table: Table)
        ensures
            table@ == TableView::empty(),
            table@.wf(),
    {
        let table = Table { rows: Vec::new(), last_id: 0 };
        assert(table@.rows =~= Seq::empty());
        table
    }

    /// An empty table on which ids up to `last_id` count as handed out
    /// already: the first row created gets the id after it.
    pub fn starting_after(last_id: i64) -> (table: Table)
        requires
            0 <= last_id,
        ensures
            table@ == (TableView { rows: Seq::empty(), last_id: last_id as int }),
            table@.wf(),
    {
        let table = Table { rows: Vec::new(), last_id };
        assert(table@.rows =~= Seq::empty());
        table
    }

    /// All rows, in ascending order of id.
    pub fn list(&self) -> (todos: Vec<Todo>)
        ensures
            todo_views(todos@) == self@.rows,
    {
        let mut todos: Vec<Todo> = Vec::new();
        let mut i: usize = 0;
        while i < self.rows.len()
            invariant
                i <= self.rows.len(),
                todos@ == self.rows@.take(i as int),
            decreases self.rows.len() - i,
        {
            todos.push(self.rows[i].clone());
            assert(self.rows@.take(i + 1) == self.rows@.take(i as int).push(self.rows@[i as int]));
            i = i + 1;
        }
        assert(self.rows@.take(i as int) == self.rows@);
        todos
    }

    /// Stores a new row with `description`, not done, under the next id.
    /// Fails, and stores nothing, when no id is left.
    pub fn create(&mut self, description: String) -> (outcome: Result<(), StoreError>)
        requires
            old(self)@.wf(),
        ensures
            final(self)@ == old(self)@.create(description@),
            final(self)@.wf(),
            outcome is Ok <==> old(self)@.has_room(),
            outcome matches Err(error) ==> error@ == full_message(),
    {
        if self.last_id == i64::MAX {
            return Err(StoreError { message: String::from_str("database or disk is full") });
        }
        let id: i64 = self.last_id + 1;
        let ghost before = self@;
        self.last_id = id;
        self.rows.push(Todo { id, description, done: false });
        assert(self@.rows =~= before.create(description@).rows);
        Ok(())
    }

    /// Where the row with `id` stands, if it is stored.
    fn position(&self, id: i64) -> (found: Option<usize>)
        requires
            self@.wf(),
        ensures
            match found {
                Some(i) => i < self.rows.len() && self.rows[i as int].id == id,
                None => !self@.contains_id(id as int),
            },
    {
        let mut low: usize = 0;
        let mut high: usize = self.rows.len();
        while low < high
            invariant
                low <= high <= self.rows.len(),
                self@.wf(),
                forall|k: int| 0 <= k < low ==> self@.rows[k].id < id,
                forall|k: int| high <= k < self.rows.len() ==> self@.rows[k].id > id,
            decreases high - low,
        {
            let middle: usize = low + (high - low) / 2;
            let here: i64 = self.rows[middle].id;
            assert(self@.rows[middle as int].id == here);
            if here == id {
                return Some(middle);
            } else if here < id {
                low = middle + 1;
            } else {
                high = middle;
            }
        }
        None
    }

    /// Gives the row with `id` the new description and flag. Without such a
    /// row nothing changes.
    pub fn update(&mut self, id: i64, description: String, done: bool)
        requires
            old(self)@.wf(),
        ensures
            final(self)@ == old(self)@.update(id as int, description@, done),
            final(self)@.wf(),
    {
        let ghost before = self@;
        match self.position(id) {
            Some(i) => {
                self.rows.set(i, Todo { id, description, done });
                proof {
                    let after = before.update(id as int, description@, done);
                    assert forall|k: int| 0 <= k < before.rows.len() implies self@.rows[k]
                        == after.rows[k] by {
                        if k < i {
                            assert(before.rows[k].id < before.rows[i as int].id);
                        } else if k > i {
                            assert(before.rows[i as int].id < before.rows[k].id);
                        }
                    }
                    assert(self@.rows =~= after.rows);
                }
            },
            None => {
                assert(self@.rows =~= before.update(id as int, description@, done).rows);
            },
        }
    }

    /// Removes the row with `id`. Without such a row nothing changes.
    pub fn delete(&mut self, id: i64)
        requires
            old(self)@.wf(),
        ensures
            final(self)@ == old(self)@.delete(id as int),
            final(self)@.wf(),
    {
        let ghost before = self@;
        match self.position(id) {
            Some(i) => {
                self.rows.remove(i);
                proof {
                    lemma_delete_one(before, i as int);
                    assert(self@.rows =~= before.rows.remove(i as int));
                }
            },
            None => {
                proof {
                    lemma_delete_none(before, id as int);
                }
            },
        }
    }
}

/// In a well-formed table, deleting the id of the row at `i` removes that row
/// and no other.
pub proof fn lemma_delete_one(table: TableView, i: int)
    requires
        table.wf(),
        0 <= i < table.rows.len(),
    ensures
        table.delete(table.rows[i].id).rows == table.rows.remove(i),
        table.delete(table.rows[i].id).wf(),
{
    let id = table.rows[i].id;
    let keep = |row: TodoView| row.id != id;
    lemma_filter_prefix(table.rows, keep, i, table.rows.len() as int);
    assert(table.rows.take(table.rows.len() as int) == table.rows);
}

/// Deleting an id that no row has leaves the table as it is.
pub proof fn lemma_delete_none(table: TableView, id: int)
    requires
        !table.contains_id(id),
    ensures
        table.delete(id) == table,
{
    let keep = |row: TodoView| row.id != id;
    assert forall|k: int| 0 <= k < table.rows.len() implies keep(#[trigger] table.rows[k]) by {
        assert(table.rows[k].id != id);
    }
    lemma_filter_keeps_all(table.rows, keep);
}

proof fn lemma_filter_keeps_all(rows: Seq<TodoView>, keep: spec_fn(TodoView) -> bool)
    requires
        forall|k: int| 0 <= k < rows.len() ==> keep(#[trigger] rows[k]),
    ensures
        rows.filter(keep) == rows,
    decreases rows.len(),
{
    reveal(Seq::filter);
    if rows.len() > 0 {
        lemma_filter_keeps_all(rows.drop_last(), keep);
        assert(rows.drop_last().push(rows.last()) == rows);
    }
}

/// Where `keep` rejects the row at `i` and no other, filtering the first `n`
/// rows gives them without that row.
proof fn lemma_filter_prefix(rows: Seq<TodoView>, keep: spec_fn(TodoView) -> bool, i: int, n: int)
    requires
        0 <= i < n <= rows.len(),
        forall|k: int| 0 <= k < rows.len() ==> (keep(#[trigger] rows[k]) <==> k != i),
    ensures
        rows.take(n).filter(keep) == rows.take(n).remove(i),
    decreases n,
{
    reveal(Seq::filter);
    let first = rows.take(n);
    assert(first.drop_last() == rows.take(n - 1));
    if n - 1 == i {
        assert forall|k: int| 0 <= k < rows.take(i).len() implies keep(#[trigger] rows.take(i)[k]) by {
            assert(rows.take(i)[k] == rows[k]);
        }
        lemma_filter_keeps_all(rows.take(i), keep);
        assert(first.last() == rows[i]);
        assert(first.remove(i) == rows.take(i));
    } else {
        lemma_filter_prefix(rows, keep, i, n - 1);
        assert(first.last() == rows[n - 1]);
        assert(first.remove(i) == rows.take(n - 1).remove(i).push(rows[n - 1]));
    }
}

} // verus!
