//! What holds of the table and of the handlers, whatever the requests.

use crate::form::{id_of, new_todo_of, todo_of, FormView};
use crate::handler::{
    answer, client_origin, create_step, delete_step, list_step, reply_to, table_after, update_step,
};
use crate::reply::{is_client_error, is_server_error, ReplyView};
use crate::statement::{OutcomeView, StatementView};
use crate::table::{lemma_delete_none, lemma_delete_one, TableView};
use crate::todo::TodoView;
use vstd::prelude::*;

verus! {

/// The table after one `create` for each of `descriptions`, in order.
pub open spec fn create_all(table: TableView, descriptions: Seq<Seq<char>>) -> TableView
    decreases descriptions.len(),
{
    if descriptions.len() == 0 {
        table
    } else {
        create_all(table, descriptions.drop_last()).create(descriptions.last())
    }
}

/// How many of `wanted` creates in a row go through on `table`: all of them,
/// or as many as ids are left.
pub open spec fn created(table: TableView, wanted: nat) -> nat {
    if wanted <= i64::MAX - table.last_id {
        wanted
    } else {
        (i64::MAX - table.last_id) as nat
    }
}

/// Whatever statement runs, a well-formed table stays well-formed: ids stay
/// unique and the rows stay in ascending order of id.
pub proof fn law_table_stays_well_formed(table: TableView, statement: StatementView)
    requires
        table.wf(),
    ensures
        statement.apply(table).wf(),
{
    match statement {
        StatementView::SelectAll => {},
        StatementView::Insert { description } => {},
        StatementView::Update { id, description, done } => {},
        StatementView::Delete { id } => {
            if table.contains_id(id) {
                let i = choose|i: int| 0 <= i < table.rows.len() && (#[trigger] table.rows[i]).id == id;
                lemma_delete_one(table, i);
            } else {
                lemma_delete_none(table, id);
            }
        },
    }
}

/// No id is ever used again, and no row ever changes its id: after any
/// statement, each row either was stored before under the same id or carries
/// an id that had never been handed out.
pub proof fn law_ids_are_never_reused(table: TableView, statement: StatementView)
    requires
        table.wf(),
    ensures
        statement.apply(table).last_id >= table.last_id,
        forall|k: int|
            0 <= k < statement.apply(table).rows.len() ==> {
                let id = (#[trigger] statement.apply(table).rows[k]).id;
                table.contains_id(id) || id > table.last_id
            },
{
    let after = statement.apply(table);
    assert forall|k: int| 0 <= k < after.rows.len() implies {
        let id = (#[trigger] after.rows[k]).id;
        table.contains_id(id) || id > table.last_id
    } by {
        match statement {
            StatementView::SelectAll => {
                assert(table.rows[k].id == after.rows[k].id);
            },
            StatementView::Insert { description } => {
                if k < table.rows.len() {
                    assert(table.rows[k].id == after.rows[k].id);
                }
            },
            StatementView::Update { id, description, done } => {
                assert(table.rows[k].id == after.rows[k].id);
            },
            StatementView::Delete { id } => {
                if table.contains_id(id) {
                    let i = choose|i: int|
                        0 <= i < table.rows.len() && (#[trigger] table.rows[i]).id == id;
                    lemma_delete_one(table, i);
                    if k < i {
                        assert(table.rows[k].id == after.rows[k].id);
                    } else {
                        assert(table.rows[k + 1].id == after.rows[k].id);
                    }
                } else {
                    lemma_delete_none(table, id);
                    assert(table.rows[k].id == after.rows[k].id);
                }
            },
        }
    }
}

/// After any run of creates the table lists what it held before, followed by
/// exactly the items that were created, in the order of their creation, under
/// consecutive ids and none of them done. A create goes through as long as an
/// id is left.
pub proof fn law_creates_are_listed_in_order(table: TableView, descriptions: Seq<Seq<char>>)
    requires
        table.wf(),
    ensures
        create_all(table, descriptions).wf(),
        create_all(table, descriptions).last_id == table.last_id + created(
            table,
            descriptions.len(),
        ),
        create_all(table, descriptions).rows == table.rows + Seq::new(
            created(table, descriptions.len()),
            |i: int| TodoView { id: table.last_id + 1 + i, description: descriptions[i], done: false },
        ),
    decreases descriptions.len(),
{
    let n = descriptions.len();
    if n == 0 {
        assert(create_all(table, descriptions).rows =~= table.rows + Seq::new(
            created(table, n),
            |i: int| TodoView { id: table.last_id + 1 + i, description: descriptions[i], done: false },
        ));
    } else {
        let earlier = descriptions.drop_last();
        law_creates_are_listed_in_order(table, earlier);
        let before = create_all(table, earlier);
        assert(create_all(table, descriptions).rows =~= table.rows + Seq::new(
            created(table, n),
            |i: int| TodoView { id: table.last_id + 1 + i, description: descriptions[i], done: false },
        ));
    }
}

/// On a table that starts empty, after any run of creates the list holds
/// exactly the created items: ids from 1 upwards in ascending order, each
/// with its description and not done.
pub proof fn law_list_after_creates(descriptions: Seq<Seq<char>>)
    ensures
        create_all(TableView::empty(), descriptions).rows == Seq::new(
            created(TableView::empty(), descriptions.len()),
            |i: int| TodoView { id: i + 1, description: descriptions[i], done: false },
        ),
{
    law_creates_are_listed_in_order(TableView::empty(), descriptions);
    assert(create_all(TableView::empty(), descriptions).rows =~= Seq::new(
        created(TableView::empty(), descriptions.len()),
        |i: int| TodoView { id: i + 1, description: descriptions[i], done: false },
    ));
}

/// An update of an id that is stored changes the description and the flag of
/// the one row with that id and nothing else, and the store reports success.
pub proof fn law_update_changes_one_row(
    table: TableView,
    id: int,
    description: Seq<char>,
    done: bool,
)
    requires
        table.wf(),
        table.contains_id(id),
    ensures
        exists|i: int|
            0 <= i < table.rows.len() && (#[trigger] table.rows[i]).id == id && table.update(
                id,
                description,
                done,
            ).rows == table.rows.update(i, TodoView { id, description, done }),
        table.update(id, description, done).last_id == table.last_id,
        (StatementView::Update { id, description, done }).outcome(table) == OutcomeView::Done,
{
    let i = choose|i: int| 0 <= i < table.rows.len() && (#[trigger] table.rows[i]).id == id;
    let after = table.update(id, description, done);
    assert forall|k: int| 0 <= k < table.rows.len() implies after.rows[k] == table.rows.update(
        i,
        TodoView { id, description, done },
    )[k] by {
        if k < i {
            assert(table.rows[k].id < table.rows[i].id);
        } else if k > i {
            assert(table.rows[i].id < table.rows[k].id);
        }
    }
    assert(after.rows =~= table.rows.update(i, TodoView { id, description, done }));
}

/// An update of an id that is not stored leaves the table as it is, and the
/// store still reports success.
pub proof fn law_update_of_missing_id_changes_nothing(
    table: TableView,
    id: int,
    description: Seq<char>,
    done: bool,
)
    requires
        !table.contains_id(id),
    ensures
        table.update(id, description, done) == table,
        (StatementView::Update { id, description, done }).outcome(table) == OutcomeView::Done,
{
    let after = table.update(id, description, done);
    assert forall|k: int| 0 <= k < table.rows.len() implies after.rows[k] == table.rows[k] by {
        assert(table.rows[k].id != id);
    }
    assert(after.rows =~= table.rows);
}

/// A delete of an id that is stored removes the one row with that id and
/// nothing else, and the store reports success.
pub proof fn law_delete_removes_one_row(table: TableView, id: int)
    requires
        table.wf(),
        table.contains_id(id),
    ensures
        exists|i: int|
            0 <= i < table.rows.len() && (#[trigger] table.rows[i]).id == id && table.delete(id).rows
                == table.rows.remove(i),
        table.delete(id).last_id == table.last_id,
        !table.delete(id).contains_id(id),
        (StatementView::Delete { id }).outcome(table) == OutcomeView::Done,
{
    let i = choose|i: int| 0 <= i < table.rows.len() && (#[trigger] table.rows[i]).id == id;
    lemma_delete_one(table, i);
    let after = table.delete(id);
    assert forall|k: int| 0 <= k < after.rows.len() implies (#[trigger] after.rows[k]).id != id by {
        if k < i {
            assert(table.rows[k].id < table.rows[i].id);
        } else {
            assert(table.rows[i].id < table.rows[k + 1].id);
        }
    }
}

/// A delete of an id that is not stored leaves the table as it is, and the
/// store still reports success.
pub proof fn law_delete_of_missing_id_changes_nothing(table: TableView, id: int)
    requires
        !table.contains_id(id),
    ensures
        table.delete(id) == table,
        (StatementView::Delete { id }).outcome(table) == OutcomeView::Done,
{
    lemma_delete_none(table, id);
}

/// Two creates, whichever runs first, both go through while two ids are
/// left: both items are listed after what was stored before, under the two
/// next ids, which differ from each other and from every earlier id.
pub proof fn law_two_creates_in_either_order(table: TableView, a: Seq<char>, b: Seq<char>)
    requires
        table.wf(),
        table.last_id + 2 <= i64::MAX,
    ensures
        (StatementView::Insert { description: a }).outcome(table) == OutcomeView::Done,
        (StatementView::Insert { description: b }).outcome(table.create(a)) == OutcomeView::Done,
        table.create(a).create(b).rows == table.rows.push(
            TodoView { id: table.last_id + 1, description: a, done: false },
        ).push(TodoView { id: table.last_id + 2, description: b, done: false }),
        (StatementView::Insert { description: b }).outcome(table) == OutcomeView::Done,
        (StatementView::Insert { description: a }).outcome(table.create(b)) == OutcomeView::Done,
        table.create(b).create(a).rows == table.rows.push(
            TodoView { id: table.last_id + 1, description: b, done: false },
        ).push(TodoView { id: table.last_id + 2, description: a, done: false }),
        !table.contains_id(table.last_id + 1),
        !table.contains_id(table.last_id + 2),
        table.create(a).create(b).wf(),
        table.create(b).create(a).wf(),
{
}

/// Listing answers with every row of the table, in ascending order of id, and
/// changes nothing.
pub proof fn law_list_shows_every_row(table: TableView)
    requires
        table.wf(),
    ensures
        reply_to(list_step(), table) == ReplyView::Json(table.rows),
        table_after(list_step(), table) == table,
        forall|i: int, j: int|
            0 <= i < j < table.rows.len() ==> (#[trigger] table.rows[i]).id < (
            #[trigger] table.rows[j]).id,
{
}

/// A create whose form holds one `description` inserts one row with it, not
/// done, while an id is left, and sends the client back to its origin.
pub proof fn law_create_inserts_one_row(form: FormView, table: TableView)
    requires
        table.wf(),
        table.has_room(),
        new_todo_of(form) is Ok,
    ensures
        table_after(create_step(form), table).rows == table.rows.push(
            TodoView { id: table.last_id + 1, description: new_todo_of(form)->Ok_0, done: false },
        ),
        reply_to(create_step(form), table) == (ReplyView::Redirect {
            status: 303,
            location: client_origin(),
        }),
{
}

/// A create whose form does not hold exactly one `description` is answered
/// with a client error, and on whatever table it is served no row is
/// inserted: the table stays as it is.
pub proof fn law_malformed_create_inserts_nothing(form: FormView, table: TableView)
    requires
        new_todo_of(form) is Err,
    ensures
        create_step(form) is Answer,
        reply_to(create_step(form), table) matches ReplyView::Text { status, .. }
            && is_client_error(status),
        table_after(create_step(form), table) == table,
{
}

/// An update whose form does not describe an item is answered with a client
/// error, and on whatever table it is served the table stays as it is.
pub proof fn law_malformed_update_changes_nothing(form: FormView, table: TableView)
    requires
        todo_of(form) is Err,
    ensures
        update_step(form) is Answer,
        reply_to(update_step(form), table) matches ReplyView::Text { status, .. }
            && is_client_error(status),
        table_after(update_step(form), table) == table,
{
}

/// A delete whose path holds no id is answered with a client error, and on
/// whatever table it is served the table stays as it is.
pub proof fn law_malformed_delete_changes_nothing(segment: Seq<char>, table: TableView)
    requires
        id_of(segment) is Err,
    ensures
        delete_step(segment) is Answer,
        reply_to(delete_step(segment), table) matches ReplyView::Text { status, .. }
            && is_client_error(status),
        table_after(delete_step(segment), table) == table,
{
}

/// Whatever failure the store reports, the client gets a server error whose
/// body is `Something went wrong: ` followed by the message as it came.
pub proof fn law_store_failure_is_a_server_error(message: Seq<char>)
    ensures
        answer(OutcomeView::Failed(message)) matches ReplyView::Text { status, body }
            && is_server_error(status) && body == "Something went wrong: "@ + message,
{
}

} // verus!
