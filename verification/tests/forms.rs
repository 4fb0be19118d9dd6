use todo_backend::form::{id, new_todo, single, todo, Field, Rejection};
use todo_backend::reply::Reply;
use todo_backend::todo::{NewTodo, Todo};

fn form(fields: &[(&str, &str)]) -> Vec<(String, String)> {
    fields.iter().map(|(name, value)| (name.to_string(), value.to_string())).collect()
}

#[test]
fn field_names_are_those_of_the_item() {
    assert_eq!(Field::Id.key(), "id");
    assert_eq!(Field::Description.key(), "description");
    assert_eq!(Field::Done.key(), "done");
}

#[test]
fn single_finds_the_one_value_of_a_field() {
    let fields = form(&[("a", "1"), ("description", "buy milk"), ("b", "2")]);
    assert_eq!(single(&fields, Field::Description), Ok(&"buy milk".to_string()));
    assert_eq!(single(&fields, Field::Id), Err(Rejection::Missing(Field::Id)));
    assert_eq!(single(&fields, Field::Done), Err(Rejection::Missing(Field::Done)));
}

#[test]
fn single_refuses_a_field_sent_twice() {
    let fields = form(&[("id", "1"), ("done", "true"), ("id", "1")]);
    assert_eq!(single(&fields, Field::Id), Err(Rejection::Duplicate(Field::Id)));
    assert_eq!(single(&fields, Field::Done), Ok(&"true".to_string()));
    let thrice = form(&[("id", "1"), ("id", "2"), ("id", "3")]);
    assert_eq!(single(&thrice, Field::Id), Err(Rejection::Duplicate(Field::Id)));
}

#[test]
fn new_todo_takes_the_description() {
    let fields = form(&[("description", "buy milk")]);
    assert_eq!(new_todo(&fields), Ok(NewTodo { description: "buy milk".to_string() }));
}

#[test]
fn new_todo_accepts_an_empty_description() {
    let fields = form(&[("description", "")]);
    assert_eq!(new_todo(&fields), Ok(NewTodo { description: String::new() }));
}

#[test]
fn new_todo_ignores_other_fields() {
    let fields = form(&[("id", "x"), ("description", "buy milk"), ("done", "maybe"), ("", "")]);
    assert_eq!(new_todo(&fields), Ok(NewTodo { description: "buy milk".to_string() }));
}

#[test]
fn new_todo_needs_a_description() {
    assert_eq!(new_todo(&form(&[])), Err(Rejection::Missing(Field::Description)));
    assert_eq!(
        new_todo(&form(&[("Description", "buy milk")])),
        Err(Rejection::Missing(Field::Description))
    );
    assert_eq!(
        new_todo(&form(&[("descriptio", "a"), ("descriptions", "b")])),
        Err(Rejection::Missing(Field::Description))
    );
}

#[test]
fn new_todo_refuses_two_descriptions() {
    let fields = form(&[("description", "a"), ("description", "a")]);
    assert_eq!(new_todo(&fields), Err(Rejection::Duplicate(Field::Description)));
}

#[test]
fn todo_takes_all_three_fields_in_any_order() {
    let expected = Todo { id: 7, description: "buy milk".to_string(), done: true };
    let fields = form(&[("id", "7"), ("description", "buy milk"), ("done", "true")]);
    assert_eq!(todo(&fields), Ok(expected.clone()));
    let shuffled = form(&[("done", "true"), ("extra", "1"), ("description", "buy milk"), ("id", "7")]);
    assert_eq!(todo(&shuffled), Ok(expected));
}

#[test]
fn todo_reads_signed_ids_and_false() {
    let fields = form(&[("id", "-12"), ("description", ""), ("done", "false")]);
    assert_eq!(todo(&fields), Ok(Todo { id: -12, description: String::new(), done: false }));
}

#[test]
fn todo_refuses_an_id_that_is_no_integer() {
    for bad in ["", "abc", "1.5", " 1", "9223372036854775808", "0x1"] {
        let fields = form(&[("id", bad), ("description", "buy milk"), ("done", "true")]);
        assert_eq!(todo(&fields), Err(Rejection::Invalid(Field::Id)), "{:?}", bad);
    }
}

#[test]
fn todo_refuses_a_flag_that_is_no_bool() {
    for bad in ["", "1", "0", "yes", "on", "TRUE", "False"] {
        let fields = form(&[("id", "1"), ("description", "buy milk"), ("done", bad)]);
        assert_eq!(todo(&fields), Err(Rejection::Invalid(Field::Done)), "{:?}", bad);
    }
}

#[test]
fn todo_needs_each_field() {
    assert_eq!(
        todo(&form(&[("description", "a"), ("done", "true")])),
        Err(Rejection::Missing(Field::Id))
    );
    assert_eq!(
        todo(&form(&[("id", "1"), ("done", "true")])),
        Err(Rejection::Missing(Field::Description))
    );
    assert_eq!(
        todo(&form(&[("id", "1"), ("description", "a")])),
        Err(Rejection::Missing(Field::Done))
    );
    assert_eq!(todo(&form(&[])), Err(Rejection::Missing(Field::Id)));
}

#[test]
fn todo_refuses_a_field_sent_twice() {
    assert_eq!(
        todo(&form(&[("id", "1"), ("id", "1"), ("description", "a"), ("done", "true")])),
        Err(Rejection::Duplicate(Field::Id))
    );
    assert_eq!(
        todo(&form(&[("id", "1"), ("description", "a"), ("done", "true"), ("done", "false")])),
        Err(Rejection::Duplicate(Field::Done))
    );
}

#[test]
fn todo_reports_the_first_fault_in_the_order_of_the_fields() {
    assert_eq!(
        todo(&form(&[("id", "x"), ("done", "y")])),
        Err(Rejection::Invalid(Field::Id))
    );
    assert_eq!(
        todo(&form(&[("id", "1"), ("done", "y")])),
        Err(Rejection::Missing(Field::Description))
    );
    assert_eq!(
        todo(&form(&[("done", "y"), ("done", "y"), ("description", "a"), ("description", "b"), ("id", "1")])),
        Err(Rejection::Duplicate(Field::Description))
    );
}

#[test]
fn id_reads_a_path_segment() {
    assert_eq!(id("1"), Ok(1));
    assert_eq!(id("-5"), Ok(-5));
    assert_eq!(id("9223372036854775807"), Ok(i64::MAX));
    assert_eq!(id(""), Err(Rejection::Path));
    assert_eq!(id("abc"), Err(Rejection::Path));
    assert_eq!(id("1/2"), Err(Rejection::Path));
    assert_eq!(id("9223372036854775808"), Err(Rejection::Path));
}

#[test]
fn a_rejected_form_is_answered_with_422() {
    assert_eq!(
        Rejection::Missing(Field::Description).into_response(),
        Reply::Text {
            status: 422,
            body: "Failed to deserialize form body: missing field `description`".to_string(),
        }
    );
    assert_eq!(
        Rejection::Duplicate(Field::Id).into_response(),
        Reply::Text {
            status: 422,
            body: "Failed to deserialize form body: duplicate field `id`".to_string(),
        }
    );
    assert_eq!(
        Rejection::Invalid(Field::Done).into_response(),
        Reply::Text {
            status: 422,
            body: "Failed to deserialize form body: invalid value for field `done`".to_string(),
        }
    );
}

#[test]
fn a_rejected_path_is_answered_with_400() {
    assert_eq!(
        Rejection::Path.into_response(),
        Reply::Text { status: 400, body: "Invalid URL: the id is not an integer".to_string() }
    );
}
