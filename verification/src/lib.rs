//! A statement-cursor layer over an SQLite prepared statement.
//!
//! A [`cursor::Cursor`] owns one prepared statement of the embedded engine,
//! binds values into its parameters, steps through the result rows, and
//! decodes the columns of each row into the tagged values of
//! [`types::BindArg`].  The statement handle is owned exclusively by the
//! cursor and is finalized exactly once, when the cursor is dropped; the
//! cursor's lifetime is bound to the connection the statement was prepared
//! on, so a cursor can never outlive its connection.

pub mod cursor;
mod engine;
pub mod row;
pub mod types;
