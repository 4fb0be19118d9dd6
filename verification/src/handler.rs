//! The four handlers, each in two halves with the store between them.
//!
//! The first half reads the request and says what to do next: run a statement,
//! or answer at once because the request is malformed. The second half,
//! [`finish`], turns what the store reported into the reply. The caller runs
//! the statement in between; [`serve`] does so on a table kept in memory.

use crate::error::{failure_body, AppError};
use crate::form::{form_view, id_of, new_todo_of, todo_of, FormView, Rejection};
use crate::reply::{is_header_text, Reply, ReplyView};
use crate::statement::{Outcome, OutcomeView, Statement, StatementView};
use crate::table::{Table, TableView};
use vstd::prelude::*;

verus! {

/// What a handler does once it has read the request.
#[derive(Debug, PartialEq, Eq)]
pub enum Step {
    /// Send this statement to the store, and `finish` with what it reports.
    Run(Statement),
    /// Answer at once; the store is not asked.
    Answer(Reply),
}

/// A step as a mathematical value.
pub enum StepView {
    Run(StatementView),
    Answer(ReplyView),
}

impl View for Step {
    type V = StepView;

    open spec fn view(&self) -> StepView {
        match self {
            Step::Run(statement) => StepView::Run(statement@),
            Step::Answer(reply) => StepView::Answer(reply@),
        }
    }
}

/// Where the client is sent after a change went through.
pub open spec fn client_origin() -> Seq<char> {
    "http://localhost:5173"@
}

/// The reply to a request that was turned down.
pub open spec fn rejected(rejection: Rejection) -> ReplyView {
    ReplyView::Text { status: rejection.status(), body: rejection.body() }
}

/// The first half of listing: ask for all rows.
pub open spec fn list_step() -> StepView {
    StepView::Run(StatementView::SelectAll)
}

/// The first half of creating: insert the description that the form holds,
/// or turn the form down.
pub open spec fn create_step(form: FormView) -> StepView {
    match new_todo_of(form) {
        Ok(description) => StepView::Run(StatementView::Insert { description }),
        Err(rejection) => StepView::Answer(rejected(rejection)),
    }
}

/// The first half of updating: update the row named by the form with the
/// form's description and flag, or turn the form down.
pub open spec fn update_step(form: FormView) -> StepView {
    match todo_of(form) {
        Ok(todo) => StepView::Run(
            StatementView::Update { id: todo.id, description: todo.description, done: todo.done },
        ),
        Err(rejection) => StepView::Answer(rejected(rejection)),
    }
}

/// The first half of deleting: delete the row whose id the path holds, or
/// turn the path down.
pub open spec fn delete_step(segment: Seq<char>) -> StepView {
    match id_of(segment) {
        Ok(id) => StepView::Run(StatementView::Delete { id: id as int }),
        Err(rejection) => StepView::Answer(rejected(rejection)),
    }
}

/// The reply for what the store reported: the rows as JSON, a redirection to
/// the client after a change, or a server error that shows the failure.
pub open spec fn answer(outcome: OutcomeView) -> ReplyView {
    match outcome {
        OutcomeView::Rows(rows) => ReplyView::Json(rows),
        OutcomeView::Done => ReplyView::Redirect { status: 303, location: client_origin() },
        OutcomeView::Failed(message) => ReplyView::Text {
            status: 500,
            body: failure_body(message),
        },
    }
}

/// The table after a step was served on it.
pub open spec fn table_after(step: StepView, table: TableView) -> TableView {
    match step {
        StepView::Run(statement) => statement.apply(table),
        StepView::Answer(_) => table,
    }
}

/// The reply to a step served on `table`.
pub open spec fn reply_to(step: StepView, table: TableView) -> ReplyView {
    match step {
        StepView::Run(statement) => answer(statement.outcome(table)),
        StepView::Answer(reply) => reply,
    }
}

/// Lists the items.
pub fn list() -> (step: Step)
    ensures
        step@ == list_step(),
{
    Step::Run(Statement::SelectAll)
}

/// Creates an item from a submitted form.
pub fn create(fields: &Vec<(String, String)>) -> (step: Step)
    ensures
        step@ == create_step(form_view(fields@)),
{
    match crate::form::new_todo(fields) {
        Ok(todo) => Step::Run(Statement::Insert { description: todo.description }),
        Err(rejection) => Step::Answer(rejection.into_response()),
    }
}

/// Updates an item from a submitted form.
pub fn update(fields: &Vec<(String, String)>) -> (step: Step)
    ensures
        step@ == update_step(form_view(fields@)),
{
    match crate::form::todo(fields) {
        Ok(todo) => Step::Run(
            Statement::Update { id: todo.id, description: todo.description, done: todo.done },
        ),
        Err(rejection) => Step::Answer(rejection.into_response()),
    }
}

/// Deletes the item whose id stands in the path.
pub fn delete(segment: &str) -> (step: Step)
    ensures
        step@ == delete_step(segment@),
{
    match crate::form::id(segment) {
        Ok(id) => Step::Run(Statement::Delete { id }),
        Err(rejection) => Step::Answer(rejection.into_response()),
    }
}

/// Where the client is sent after a change went through.
pub fn origin() -> (origin: &'static str)
    ensures
        origin@ == client_origin(),
        is_header_text(origin@),
{
    proof {
        reveal_strlit("http://localhost:5173");
    }
    "http://localhost:5173"
}

/// The second half of every handler: the reply for what the store reported.
pub fn finish(outcome: Outcome) -> (reply: Reply)
    ensures
        reply@ == answer(outcome@),
{
    match outcome {
        Outcome::Rows(todos) => Reply::Json(todos),
        Outcome::Done => Reply::see_other(origin()),
        Outcome::Failed(error) => AppError::from(error).into_response(),
    }
}

/// Serves a step on a table kept in memory: runs the statement, if the step
/// holds one, and gives the reply.
pub fn serve(table: &mut Table, step: Step) -> (reply: Reply)
    requires
        old(table)@.wf(),
    ensures
        final(table)@ == table_after(step@, old(table)@),
        final(table)@.wf(),
        reply@ == reply_to(step@, old(table)@),
{
    match step {
        Step::Run(statement) => {
            let outcome = statement.execute(table);
            finish(outcome)
        },
        Step::Answer(reply) => reply,
    }
}

} // verus!
