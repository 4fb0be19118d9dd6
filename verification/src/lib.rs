//! The core of a small todo-list backend: the `todos` table and its four
//! operations, the statements sent to the database, the decoding of submitted
//! forms, and the replies given to the client.

pub mod error;
pub mod form;
pub mod handler;
pub mod laws;
pub mod reply;
pub mod statement;
pub mod table;
pub mod text;
pub mod todo;
