//! Decoding what a client submits: the fields of a form and the id in a path.
//!
//! A form arrives as its fields in the order sent, each a name and a value.
//! Each field that the server needs must occur exactly once; fields under
//! other names are ignored.

use crate::reply::{Reply, ReplyView};
use crate::text::{bool_value, i64_value, is_word, parse_bool, parse_i64};
use crate::todo::{NewTodo, Todo, TodoView};
use vstd::prelude::*;
use vstd::string::*;

verus! {

/// A field of a submitted form.
#[derive(Clone, Copy, Debug, PartialEq, Eq)]
pub enum Field {
    Id,
    Description,
    Done,
}

/// Why a request was turned down before it reached the store.
#[derive(Clone, Copy, Debug, PartialEq, Eq)]
pub enum Rejection {
    /// The form has no field of this name.
    Missing(Field),
    /// The form has more than one field of this name.
    Duplicate(Field),
    /// The value of this field is not of the field's type.
    Invalid(Field),
    /// The id in the path is not an integer that an id can be.
    Path,
}

/// A submitted form as a mathematical value: names and values in order.
pub type FormView = Seq<(Seq<char>, Seq<char>)>;

/// The fields of a form, each as a pair of texts.
pub open spec fn form_view(fields: Seq<(String, String)>) -> FormView {
    fields.map_values(|field: (String, String)| (field.0@, field.1@))
}

/// What decoding gave, with the decoded value as a mathematical value.
pub open spec fn decoded_view<T: View>(decoded: Result<T, Rejection>) -> Result<T::V, Rejection> {
    match decoded {
        Ok(value) => Ok(value@),
        Err(rejection) => Err(rejection),
    }
}

/// The values submitted under `name`, in order.
pub open spec fn values_of(form: FormView, name: Seq<char>) -> Seq<Seq<char>> {
    form.filter(|field: (Seq<char>, Seq<char>)| field.0 == name).map_values(
        |field: (Seq<char>, Seq<char>)| field.1,
    )
}

/// The one value submitted for `field`, or why there is none.
pub open spec fn single_value(form: FormView, field: Field) -> Result<Seq<char>, Rejection> {
    let values = values_of(form, field.name());
    if values.len() == 0 {
        Err(Rejection::Missing(field))
    } else if values.len() == 1 {
        Ok(values[0])
    } else {
        Err(Rejection::Duplicate(field))
    }
}

/// The new item that a form describes: its one `description`, any text.
pub open spec fn new_todo_of(form: FormView) -> Result<Seq<char>, Rejection> {
    single_value(form, Field::Description)
}

/// The item that a form describes: one `id`, an integer that fits an `i64`;
/// one `description`, any text; one `done`, `true` or `false`. The fault
/// reported is the first that the fields show, taken in that order.
pub open spec fn todo_of(form: FormView) -> Result<TodoView, Rejection> {
    match single_value(form, Field::Id) {
        Err(rejection) => Err(rejection),
        Ok(id_text) => match i64_value(id_text) {
            None => Err(Rejection::Invalid(Field::Id)),
            Some(id) => match single_value(form, Field::Description) {
                Err(rejection) => Err(rejection),
                Ok(description) => match single_value(form, Field::Done) {
                    Err(rejection) => Err(rejection),
                    Ok(done_text) => match bool_value(done_text) {
                        None => Err(Rejection::Invalid(Field::Done)),
                        Some(done) => Ok(TodoView { id: id as int, description, done }),
                    },
                },
            },
        },
    }
}

/// The id that a path segment holds.
pub open spec fn id_of(segment: Seq<char>) -> Result<i64, Rejection> {
    match i64_value(segment) {
        Some(id) => Ok(id),
        None => Err(Rejection::Path),
    }
}

impl Field {
    /// The name under which the field is submitted.
    pub open spec fn name(self) -> Seq<char> {
        match self {
            Field::Id => "id"@,
            Field::Description => "description"@,
            Field::Done => "done"@,
        }
    }

    /// The name under which the field is submitted.
    pub fn key(self) -> (key: &'static str)
        ensures
            key@ == self.name(),
            key.is_ascii(),
    {
        proof {
            reveal_strlit("id");
            reveal_strlit("description");
            reveal_strlit("done");
        }
        match self {
            Field::Id => "id",
            Field::Description => "description",
            Field::Done => "done",
        }
    }
}

impl Rejection {
    /// What the client is told.
    pub open spec fn body(self) -> Seq<char> {
        match self {
            Rejection::Missing(field) => "Failed to deserialize form body: missing field `"@
                + field.name() + "`"@,
            Rejection::Duplicate(field) => "Failed to deserialize form body: duplicate field `"@
                + field.name() + "`"@,
            Rejection::Invalid(field) => "Failed to deserialize form body: invalid value for field `"@
                + field.name() + "`"@,
            Rejection::Path => "Invalid URL: the id is not an integer"@,
        }
    }

    /// The status of the reply: 400 for a path, 422 for a form.
    pub open spec fn status(self) -> u16 {
        match self {
            Rejection::Path => 400,
            _ => 422,
        }
    }

    /// The reply for a request that was turned down: a client error that says why.
    pub fn into_response(self) -> (reply: Reply)
        ensures
            reply@ == (ReplyView::Text { status: self.status(), body: self.body() }),
    {
        match self {
            Rejection::Missing(field) => Reply::unprocessable(
                String::from_str("Failed to deserialize form body: missing field `").concat(
                    field.key(),
                ).concat("`"),
            ),
            Rejection::Duplicate(field) => Reply::unprocessable(
                String::from_str("Failed to deserialize form body: duplicate field `").concat(
                    field.key(),
                ).concat("`"),
            ),
            Rejection::Invalid(field) => Reply::unprocessable(
                String::from_str(
                    "Failed to deserialize form body: invalid value for field `",
                ).concat(field.key()).concat("`"),
            ),
            Rejection::Path => Reply::bad_request(
                String::from_str("Invalid URL: the id is not an integer"),
            ),
        }
    }
}

/// One more field at the end of a form adds its value to those of its name
/// and to no others.
pub proof fn lemma_values_of_push(form: FormView, field: (Seq<char>, Seq<char>), name: Seq<char>)
    ensures
        values_of(form.push(field), name) == if field.0 == name {
            values_of(form, name).push(field.1)
        } else {
            values_of(form, name)
        },
{
    reveal(Seq::filter);
    let named = |f: (Seq<char>, Seq<char>)| f.0 == name;
    assert(form.push(field).drop_last() == form);
    assert(form.push(field).last() == field);
    if field.0 == name {
        assert(values_of(form.push(field), name) =~= values_of(form, name).push(field.1));
    }
}

/// The one value submitted for `field`.
pub fn single<'a>(fields: &'a Vec<(String, String)>, field: Field) -> (found: Result<
    &'a String,
    Rejection,
>)
    ensures
        decoded_view(found) == single_value(form_view(fields@), field),
{
    let key: &'static str = field.key();
    let ghost form = form_view(fields@);
    let mut first: Option<usize> = None;
    let mut i: usize = 0;
    assert(form.take(0) =~= Seq::empty());
    assert(values_of(Seq::empty(), key@) =~= Seq::empty()) by {
        reveal(Seq::filter);
    }
    while i < fields.len()
        invariant
            i <= fields.len(),
            form == form_view(fields@),
            key@ == field.name(),
            key.is_ascii(),
            match first {
                Some(j) => j < i && values_of(form.take(i as int), key@) == seq![fields[j as int].1@],
                None => values_of(form.take(i as int), key@).len() == 0,
            },
        decreases fields.len() - i,
    {
        proof {
            lemma_values_of_push(form.take(i as int), form[i as int], key@);
            assert(form.take(i + 1) == form.take(i as int).push(form[i as int]));
        }
        if is_word(fields[i].0.as_str(), key) {
            if first.is_some() {
                proof {
                    lemma_values_of_grow(form, key@, i + 1);
                }
                return Err(Rejection::Duplicate(field));
            }
            first = Some(i);
            assert(values_of(form.take(i + 1), key@) =~= seq![fields[i as int].1@]);
        }
        i = i + 1;
    }
    assert(form.take(i as int) == form);
    match first {
        Some(j) => Ok(&fields[j].1),
        None => Err(Rejection::Missing(field)),
    }
}

/// A form holds at least as many values under a name as any of its beginnings.
proof fn lemma_values_of_grow(form: FormView, name: Seq<char>, n: int)
    requires
        0 <= n <= form.len(),
    ensures
        values_of(form.take(n), name).len() <= values_of(form, name).len(),
    decreases form.len() - n,
{
    if n < form.len() {
        lemma_values_of_push(form.take(n), form[n], name);
        assert(form.take(n + 1) == form.take(n).push(form[n]));
        lemma_values_of_grow(form, name, n + 1);
    } else {
        assert(form.take(n) == form);
    }
}

/// Reads the form of a new item.
pub fn new_todo(fields: &Vec<(String, String)>) -> (decoded: Result<NewTodo, Rejection>)
    ensures
        decoded_view(decoded) == new_todo_of(form_view(fields@)),
{
    match single(fields, Field::Description) {
        Ok(description) => Ok(NewTodo { description: description.clone() }),
        Err(rejection) => Err(rejection),
    }
}

/// Reads the form of a whole item.
pub fn todo(fields: &Vec<(String, String)>) -> (decoded: Result<Todo, Rejection>)
    ensures
        decoded_view(decoded) == todo_of(form_view(fields@)),
{
    let id: i64 = match single(fields, Field::Id) {
        Ok(text) => match parse_i64(text.as_str()) {
            Some(id) => id,
            None => {
                return Err(Rejection::Invalid(Field::Id));
            },
        },
        Err(rejection) => {
            return Err(rejection);
        },
    };
    let description: String = match single(fields, Field::Description) {
        Ok(text) => text.clone(),
        Err(rejection) => {
            return Err(rejection);
        },
    };
    let done: bool = match single(fields, Field::Done) {
        Ok(text) => match parse_bool(text.as_str()) {
            Some(done) => done,
            None => {
                return Err(Rejection::Invalid(Field::Done));
            },
        },
        Err(rejection) => {
            return Err(rejection);
        },
    };
    Ok(Todo { id, description, done })
}

/// Reads the id out of a path segment.
pub fn id(segment: &str) -> (decoded: Result<i64, Rejection>)
    ensures
        decoded == id_of(segment@),
{
    match parse_i64(segment) {
        Some(id) => Ok(id),
        None => Err(Rejection::Path),
    }
}

} // verus!
