//! The todo item and the form of a new one.

use vstd::prelude::*;

verus! {

/// A stored todo item.
#[derive(Debug, PartialEq, Eq)]
pub struct Todo {
    /// Assigned by the table when the item is created; never changes afterwards.
    pub id: i64,
    pub description: String,
    pub done: bool,
}

/// What a client supplies to create an item.
#[derive(Debug, PartialEq, Eq)]
pub struct NewTodo {
    pub description: String,
}

/// A todo item as a mathematical value.
pub struct TodoView {
    pub id: int,
    pub description: Seq<char>,
    pub done: bool,
}

impl View for Todo {
    type V = TodoView;

    open spec fn view(&self) -> TodoView {
        TodoView { id: self.id as int, description: self.description@, done: self.done }
    }
}

impl View for NewTodo {
    type V = Seq<char>;

    open spec fn view(&self) -> Seq<char> {
        self.description@
    }
}

/// The items of a sequence, each as a mathematical value.
pub open spec fn todo_views(todos: Seq<Todo>) -> Seq<TodoView> {
    todos.map_values(|t: Todo| t@)
}

/// A row of the table as the database hands it out: id, description, flag.
pub open spec fn row_view(row: (i64, String, bool)) -> TodoView {
    TodoView { id: row.0 as int, description: row.1@, done: row.2 }
}

impl Todo {
    /// The item that a row of the table holds.
    pub fn from_row(row: (i64, String, bool)) -> (todo: Todo)
        ensures
            todo@ == row_view(row),
    {
        Todo { id: row.0, description: row.1, done: row.2 }
    }

    /// The items that the rows of a query hold, in the order of the rows.
    pub fn from_rows(rows: Vec<(i64, String, bool)>) -> (todos: Vec<Todo>)
        ensures
            todo_views(todos@) == rows@.map_values(|row: (i64, String, bool)| row_view(row)),
    {
        let mut todos: Vec<Todo> = Vec::new();
        let mut i: usize = 0;
        while i < rows.len()
            invariant
                i <= rows.len(),
                todos@.len() == i,
                forall|k: int| 0 <= k < i ==> (#[trigger] todos@[k])@ == row_view(rows@[k]),
            decreases rows.len() - i,
        {
            todos.push(Todo { id: rows[i].0, description: rows[i].1.clone(), done: rows[i].2 });
            i = i + 1;
        }
        assert(todo_views(todos@) =~= rows@.map_values(|row: (i64, String, bool)| row_view(row)));
        todos
    }
}

impl Clone for Todo {
    fn clone(&self) -> (copy: Todo)
        ensures
            copy == *self,
    {
        Todo { id: self.id, description: self.description.clone(), done: self.done }
    }
}

impl Clone for NewTodo {
    fn clone(&self) -> (copy: NewTodo)
        ensures
            copy == *self,
    {
        NewTodo { description: self.description.clone() }
    }
}

} // verus!
