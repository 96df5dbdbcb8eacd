//! The trusted surface over the embedded SQL engine.
//!
//! Everything here is a thin declaration or wrapper around the `sqlite`
//! crate: the wrapper bodies only make the call and convert between the
//! crate's types and plain values.  What an engine call returns usually
//! depends on the database behind the connection, so the wrappers promise
//! only what the crate's source shows of every outcome; the verified
//! cursor logic does the rest.
//!
//! Two facts about a statement are fixed when it is prepared and are given
//! names here: the sequence of result-column names, which the crate caches
//! in the `Statement` value itself, and the parameter table that maps a
//! parameter name to its 1-based index.  Calls that step, reset or bind
//! leave both unchanged.
//!
//! The error channel is `Option<isize>`: a failed call hands back the
//! engine's numeric result code, or `None` when the `sqlite` crate rejected
//! the arguments before reaching the engine.  The crate's `ok!`/`error!`
//! paths only build an error from a non-`SQLITE_OK` code, so a reported
//! code is never 0.
//!
//! The crate passes byte counts and parameter indices to the engine as
//! 32-bit C integers; a count or index of 2³¹ or more would wrap to a
//! negative value, which the engine's interface leaves undefined.  The
//! wrappers therefore require their byte counts and indices to stay below
//! 2³¹.

use crate::types::ColumnType;
use vstd::prelude::*;
use vstd::string::StringSliceAdditionalSpecFns;

verus! {

#[verifier::external_type_specification]
#[verifier::external_body]
/// A prepared statement of the `sqlite` crate.  The value is opaque here;
/// its lifetime parameter ties it to the connection it was prepared on.
pub struct ExStatement<'l>(sqlite::Statement<'l>);

/// The result-column names the statement was prepared with, in column
/// order.  The `sqlite` crate reads them once at prepare time and caches
/// them in the `Statement` value, so they are a function of that value.
pub uninterp spec fn statement_columns(stmt: sqlite::Statement) -> Seq<Seq<char>>;

/// The 1-based index of the named parameter in the statement's parameter
/// table, or 0 when the statement has no parameter of that name.  The
/// table is fixed when the statement is prepared
/// (`sqlite3_bind_parameter_index`), so the index is a function of the
/// statement value and the name alone.
pub uninterp spec fn parameter_index_of(stmt: sqlite::Statement, name: Seq<char>) -> usize;

/// Relies on `sqlite::Statement::next` (`sqlite3_step`): advances execution
/// by one step.  `Ok(true)` means a row is available, `Ok(false)` means the
/// statement is done; any other outcome carries the engine's error code.
#[verifier::external_body]
pub(crate) fn step_raw<'l>(stmt: &mut sqlite::Statement<'l>) -> (r: Result<bool, Option<isize>>)
    ensures
        r matches Err(code) ==> code != Some(0isize),
        statement_columns(*final(stmt)) == statement_columns(*old(stmt)),
{
    match stmt.next() {
        Ok(sqlite::State::Row) => Ok(true),
        Ok(sqlite::State::Done) => Ok(false),
        Err(e) => Err(e.code),
    }
}

/// Relies on `sqlite::Statement::reset` (`sqlite3_reset`): reinitializes
/// the statement for re-execution without touching its bindings.
#[verifier::external_body]
pub(crate) fn reset_raw<'l>(stmt: &mut sqlite::Statement<'l>) -> (r: Result<(), Option<isize>>)
    ensures
        r matches Err(code) ==> code != Some(0isize),
        statement_columns(*final(stmt)) == statement_columns(*old(stmt)),
{
    match stmt.reset() {
        Ok(()) => Ok(()),
        Err(e) => Err(e.code),
    }
}

/// Relies on `sqlite::Statement::bind` with an `i64`
/// (`sqlite3_bind_int64`): binds the value at the 1-based parameter index.
#[verifier::external_body]
pub(crate) fn bind_i64_raw<'l>(stmt: &mut sqlite::Statement<'l>, i: usize, v: i64) -> (r: Result<
    (),
    Option<isize>,
>)
    requires
        i < 0x8000_0000,
    ensures
        r matches Err(code) ==> code != Some(0isize),
        statement_columns(*final(stmt)) == statement_columns(*old(stmt)),
{
    match stmt.bind((i, v)) {
        Ok(()) => Ok(()),
        Err(e) => Err(e.code),
    }
}

/// Relies on `sqlite::Statement::bind` with a `&str`
/// (`sqlite3_bind_text`): binds a copy of the text at the 1-based index.
/// The crate hands the engine the byte count as a C int, so the count must
/// stay below 2³¹; a character encodes to at most four bytes.
#[verifier::external_body]
pub(crate) fn bind_text_raw<'l>(stmt: &mut sqlite::Statement<'l>, i: usize, v: &str) -> (r: Result<
    (),
    Option<isize>,
>)
    requires
        i < 0x8000_0000,
        v.spec_bytes().len() < 0x8000_0000,
    ensures
        r matches Err(code) ==> code != Some(0isize),
        statement_columns(*final(stmt)) == statement_columns(*old(stmt)),
{
    match stmt.bind((i, v)) {
        Ok(()) => Ok(()),
        Err(e) => Err(e.code),
    }
}

/// Relies on `sqlite::Statement::bind` with a `&[u8]`
/// (`sqlite3_bind_blob`): binds a copy of the bytes at the 1-based index.
/// The byte count is handed to the engine as a C int and must stay below
/// 2³¹.
#[verifier::external_body]
pub(crate) fn bind_blob_raw<'l>(stmt: &mut sqlite::Statement<'l>, i: usize, v: &[u8]) -> (r:
    Result<(), Option<isize>>)
    requires
        i < 0x8000_0000,
        v@.len() < 0x8000_0000,
    ensures
        r matches Err(code) ==> code != Some(0isize),
        statement_columns(*final(stmt)) == statement_columns(*old(stmt)),
{
    match stmt.bind((i, v)) {
        Ok(()) => Ok(()),
        Err(e) => Err(e.code),
    }
}

/// Relies on `sqlite::Statement::bind` with a float value
/// (`sqlite3_bind_double`), and on `bytemuck::cast` to reinterpret the
/// caller's IEEE-754 bit pattern as the double to bind.
#[verifier::external_body]
pub(crate) fn bind_double_bits_raw<'l>(
    stmt: &mut sqlite::Statement<'l>,
    i: usize,
    bits: u64,
) -> (r: Result<(), Option<isize>>)
    requires
        i < 0x8000_0000,
    ensures
        r matches Err(code) ==> code != Some(0isize),
        statement_columns(*final(stmt)) == statement_columns(*old(stmt)),
{
    match stmt.bind((i, sqlite::Value::Float(bytemuck::cast(bits)))) {
        Ok(()) => Ok(()),
        Err(e) => Err(e.code),
    }
}

/// Relies on `sqlite::Statement::bind` with `()`
/// (`sqlite3_bind_null`): binds SQL NULL at the 1-based index.
#[verifier::external_body]
pub(crate) fn bind_null_raw<'l>(stmt: &mut sqlite::Statement<'l>, i: usize) -> (r: Result<
    (),
    Option<isize>,
>)
    requires
        i < 0x8000_0000,
    ensures
        r matches Err(code) ==> code != Some(0isize),
        statement_columns(*final(stmt)) == statement_columns(*old(stmt)),
{
    match stmt.bind((i, ())) {
        Ok(()) => Ok(()),
        Err(e) => Err(e.code),
    }
}

/// Relies on `sqlite::Statement::parameter_index`
/// (`sqlite3_bind_parameter_index`): looks the name up in the parameter
/// table fixed at prepare time.  A name holding an interior NUL byte
/// cannot be handed to the engine and comes back as `None`, like a name
/// the table does not hold.
#[verifier::external_body]
pub(crate) fn parameter_index_raw<'l>(stmt: &sqlite::Statement<'l>, name: &str) -> (r: Option<
    usize,
>)
    ensures
        r == (if name@.contains('\u{0}') || parameter_index_of(*stmt, name@) == 0 {
            Option::<usize>::None
        } else {
            Some(parameter_index_of(*stmt, name@))
        }),
{
    match stmt.parameter_index(name) {
        Ok(Some(i)) => Some(i),
        Ok(None) => None,
        Err(_) => None,
    }
}

/// Relies on `sqlite::Statement::column_names`: the names of the result
/// columns, in column order, as the crate cached them when the statement
/// was prepared.
#[verifier::external_body]
pub(crate) fn column_names_raw<'l>(stmt: &sqlite::Statement<'l>) -> (r: Vec<String>)
    ensures
        r.deep_view() == statement_columns(*stmt),
{
    stmt.column_names().to_vec()
}

/// Relies on `sqlite::Statement::column_type` (`sqlite3_column_type`): the
/// dynamic storage class of the value at the 0-based column index.  The
/// crate validates the index against the column count and the engine's
/// return set is closed, so the read succeeds exactly on an in-range
/// index.
#[verifier::external_body]
pub(crate) fn column_type_raw<'l>(stmt: &sqlite::Statement<'l>, i: usize) -> (r: Option<
    ColumnType,
>)
    ensures
        r is Some <==> i < statement_columns(*stmt).len(),
{
    match stmt.column_type(i) {
        Ok(sqlite::Type::Integer) => Some(ColumnType::SQLITE_INTEGER),
        Ok(sqlite::Type::Float) => Some(ColumnType::SQLITE_FLOAT),
        Ok(sqlite::Type::String) => Some(ColumnType::SQLITE_TEXT),
        Ok(sqlite::Type::Binary) => Some(ColumnType::SQLITE_BLOB),
        Ok(sqlite::Type::Null) => Some(ColumnType::SQLITE_NULL),
        Err(_) => None,
    }
}

/// Relies on `sqlite::Statement::read` with `i64`
/// (`sqlite3_column_int64`): the value at the 0-based column index,
/// coerced to an integer by the engine's conversion rules.  The crate
/// fails this read only on its own index check, so it succeeds exactly on
/// an in-range index.
#[verifier::external_body]
pub(crate) fn read_i64_raw<'l>(stmt: &sqlite::Statement<'l>, i: usize) -> (r: Option<i64>)
    ensures
        r is Some <==> i < statement_columns(*stmt).len(),
{
    stmt.read::<i64, _>(i).ok()
}

/// Relies on `sqlite::Statement::read` with `String`
/// (`sqlite3_column_text`): the value at the 0-based column index, coerced
/// to text; `None` when the engine hands out no buffer, as it does for SQL
/// NULL.  The crate decodes the buffer as a C string: bytes past an
/// embedded NUL are dropped and invalid UTF-8 is replaced, where the
/// engine also reports an exact byte count.
#[verifier::external_body]
pub(crate) fn read_text_raw<'l>(stmt: &sqlite::Statement<'l>, i: usize) -> (r: Option<String>)
    ensures
        i >= statement_columns(*stmt).len() ==> r is None,
{
    stmt.read::<String, _>(i).ok()
}

/// Relies on `sqlite::Statement::read` with `Vec<u8>`
/// (`sqlite3_column_blob`): the bytes at the 0-based column index, coerced
/// to a blob; a value without a buffer (SQL NULL, or a blob of length
/// zero) comes back empty.  The crate fails this read only on its own
/// index check, so it succeeds exactly on an in-range index.
#[verifier::external_body]
pub(crate) fn read_blob_raw<'l>(stmt: &sqlite::Statement<'l>, i: usize) -> (r: Option<Vec<u8>>)
    ensures
        r is Some <==> i < statement_columns(*stmt).len(),
{
    stmt.read::<Vec<u8>, _>(i).ok()
}

/// Relies on `sqlite::Statement::read` with a float value
/// (`sqlite3_column_double`): the value at the 0-based column index,
/// coerced to a double by the engine's conversion rules, as its IEEE-754
/// bit pattern.  The crate's value constructor only serves to name the
/// float type, so its first arm is the one that can match; the read fails
/// only on the crate's own index check.
#[verifier::external_body]
pub(crate) fn read_double_bits_raw<'l>(stmt: &sqlite::Statement<'l>, i: usize) -> (r: Option<u64>)
    ensures
        r is Some <==> i < statement_columns(*stmt).len(),
{
    match stmt.read(i).map(sqlite::Value::Float) {
        Ok(sqlite::Value::Float(x)) => Some(x.to_bits()),
        Ok(_) => None,
        Err(_) => None,
    }
}

} // verus!
