//! The SQL and MySQL front of a time-series database: what an `INSERT` statement
//! says, and how a MySQL connection is greeted, authenticated and answered.
//!
//! * [`ast`]: the part of an SQL syntax tree that an `INSERT` is read from.
//! * [`convert`]: reading that part out of the syntax tree of `sqlparser`.
//! * [`insert`]: the `INSERT` statement and the values of its rows.
//! * [`error`]: the errors of the above.
//! * [`salt`]: the salt of the MySQL handshake.
//! * [`handler`]: the decisions behind a MySQL connection.
//! * [`text`]: two functions of the standard library on text.
pub mod ast;
pub mod convert;
pub mod error;
pub mod handler;
pub mod insert;
pub mod salt;
pub mod text;
