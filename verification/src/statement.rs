//! The four statements that the handlers send to the store: their SQL text,
//! the values bound to it, and what each does to the table.

use crate::error::StoreError;
use crate::table::{full_message, Table, TableView};
use crate::todo::{todo_views, Todo, TodoView};
use vstd::prelude::*;

verus! {

/// A value bound to a `?` of a statement.
#[derive(Debug, PartialEq, Eq)]
pub enum Param {
    Integer(i64),
    Text(String),
    Boolean(bool),
}

/// A bound value as a mathematical value.
pub enum ParamView {
    Integer(int),
    Text(Seq<char>),
    Boolean(bool),
}

impl View for Param {
    type V = ParamView;

    open spec fn view(&self) -> ParamView {
        match self {
            Param::Integer(n) => ParamView::Integer(*n as int),
            Param::Text(s) => ParamView::Text(s@),
            Param::Boolean(b) => ParamView::Boolean(*b),
        }
    }
}

/// The values of a sequence, each as a mathematical value.
pub open spec fn param_views(params: Seq<Param>) -> Seq<ParamView> {
    params.map_values(|p: Param| p@)
}

/// One statement on the `todos` table.
#[derive(Debug, PartialEq, Eq)]
pub enum Statement {
    /// All rows, in ascending order of id.
    SelectAll,
    /// A new row with this description.
    Insert { description: String },
    /// A new description and flag for the row with this id.
    Update { id: i64, description: String, done: bool },
    /// The row with this id leaves.
    Delete { id: i64 },
}

/// A statement as a mathematical value.
pub enum StatementView {
    SelectAll,
    Insert { description: Seq<char> },
    Update { id: int, description: Seq<char>, done: bool },
    Delete { id: int },
}

impl View for Statement {
    type V = StatementView;

    open spec fn view(&self) -> StatementView {
        match self {
            Statement::SelectAll => StatementView::SelectAll,
            Statement::Insert { description } => StatementView::Insert { description: description@ },
            Statement::Update { id, description, done } => StatementView::Update {
                id: *id as int,
                description: description@,
                done: *done,
            },
            Statement::Delete { id } => StatementView::Delete { id: *id as int },
        }
    }
}

/// What the store reports after a statement.
#[derive(Debug, PartialEq, Eq)]
pub enum Outcome {
    /// The rows that a query found.
    Rows(Vec<Todo>),
    /// A change went through, whether or not it met a row.
    Done,
    /// The statement failed.
    Failed(StoreError),
}

/// An outcome as a mathematical value.
pub enum OutcomeView {
    Rows(Seq<TodoView>),
    Done,
    Failed(Seq<char>),
}

impl View for Outcome {
    type V = OutcomeView;

    open spec fn view(&self) -> OutcomeView {
        match self {
            Outcome::Rows(todos) => OutcomeView::Rows(todo_views(todos@)),
            Outcome::Done => OutcomeView::Done,
            Outcome::Failed(error) => OutcomeView::Failed(error@),
        }
    }
}

impl StatementView {
    /// The SQL text, with a `?` for each bound value.
    pub open spec fn sql(self) -> Seq<char> {
        match self {
            StatementView::SelectAll => "SELECT id, description, done FROM todos ORDER BY id"@,
            StatementView::Insert { .. } => "INSERT INTO todos (description) VALUES (?)"@,
            StatementView::Update { .. } => "UPDATE todos SET description = ?, done = ? WHERE id = ?"@,
            StatementView::Delete { .. } => "DELETE FROM todos WHERE id = ?"@,
        }
    }

    /// The bound values, in the order of the `?` in the text.
    pub open spec fn params(self) -> Seq<ParamView> {
        match self {
            StatementView::SelectAll => seq![],
            StatementView::Insert { description } => seq![ParamView::Text(description)],
            StatementView::Update { id, description, done } => seq![
                ParamView::Text(description),
                ParamView::Boolean(done),
                ParamView::Integer(id),
            ],
            StatementView::Delete { id } => seq![ParamView::Integer(id)],
        }
    }

    /// The table after the statement.
    pub open spec fn apply(self, table: TableView) -> TableView {
        match self {
            StatementView::SelectAll => table,
            StatementView::Insert { description } => table.create(description),
            StatementView::Update { id, description, done } => table.update(id, description, done),
            StatementView::Delete { id } => table.delete(id),
        }
    }

    /// What the store reports for the statement on `table`. A query gives the
    /// rows; an insertion fails when no id is left; an update or a deletion
    /// goes through even where no row has the id.
    pub open spec fn outcome(self, table: TableView) -> OutcomeView {
        match self {
            StatementView::SelectAll => OutcomeView::Rows(table.rows),
            StatementView::Insert { .. } => if table.has_room() {
                OutcomeView::Done
            } else {
                OutcomeView::Failed(full_message())
            },
            StatementView::Update { .. } => OutcomeView::Done,
            StatementView::Delete { .. } => OutcomeView::Done,
        }
    }
}

impl Statement {
    /// The SQL text of the statement.
    pub fn sql(&self) -> (text: &'static str)
        ensures
            text@ == self@.sql(),
    {
        match self {
            Statement::SelectAll => "SELECT id, description, done FROM todos ORDER BY id",
            Statement::Insert { .. } => "INSERT INTO todos (description) VALUES (?)",
            Statement::Update { .. } => "UPDATE todos SET description = ?, done = ? WHERE id = ?",
            Statement::Delete { .. } => "DELETE FROM todos WHERE id = ?",
        }
    }

    /// The values to bind, in the order of the `?` in the text.
    pub fn params(&self) -> (params: Vec<Param>)
        ensures
            param_views(params@) == self@.params(),
    {
        let mut params: Vec<Param> = Vec::new();
        match self {
            Statement::SelectAll => {},
            Statement::Insert { description } => {
                params.push(Param::Text(description.clone()));
            },
            Statement::Update { id, description, done } => {
                params.push(Param::Text(description.clone()));
                params.push(Param::Boolean(*done));
                params.push(Param::Integer(*id));
            },
            Statement::Delete { id } => {
                params.push(Param::Integer(*id));
            },
        }
        assert(param_views(params@) =~= self@.params());
        params
    }

    /// Runs the statement on a table kept in memory.
    pub fn execute(&self, table: &mut Table) -> (outcome: Outcome)
        requires
            old(table)@.wf(),
        ensures
            final(table)@ == self@.apply(old(table)@),
            final(table)@.wf(),
            outcome@ == self@.outcome(old(table)@),
    {
        match self {
            Statement::SelectAll => Outcome::Rows(table.list()),
            Statement::Insert { description } => match table.create(description.clone()) {
                Ok(()) => Outcome::Done,
                Err(error) => Outcome::Failed(error),
            },
            Statement::Update { id, description, done } => {
                table.update(*id, description.clone(), *done);
                Outcome::Done
            },
            Statement::Delete { id } => {
                table.delete(*id);
                Outcome::Done
            },
        }
    }
}

} // verus!
