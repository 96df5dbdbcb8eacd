//! The engine's result-code vocabulary, the dynamic column types, and the
//! tagged values that are bound into and decoded out of a statement.

use vstd::prelude::*;

verus! {

/// The discrete status vocabulary of the engine.  Nearly every engine call
/// returns one of these codes; `SQLITE_ROW` and `SQLITE_DONE` are the two
/// non-error control codes of stepwise execution.
#[allow(non_camel_case_types)]
#[derive(Clone, Copy, Debug, PartialEq, Eq, Structural)]
pub enum ResultCode {
    SQLITE_OK,
    SQLITE_ERROR,
    SQLITE_INTERNAL,
    SQLITE_PERM,
    SQLITE_ABORT,
    SQLITE_BUSY,
    SQLITE_LOCKED,
    SQLITE_NOMEM,
    SQLITE_READONLY,
    SQLITE_INTERRUPT,
    SQLITE_IOERR,
    SQLITE_CORRUPT,
    SQLITE_NOTFOUND,
    SQLITE_FULL,
    SQLITE_CANTOPEN,
    SQLITE_PROTOCOL,
    SQLITE_EMPTY,
    SQLITE_SCHEMA,
    SQLITE_TOOBIG,
    SQLITE_CONSTRAINT,
    SQLITE_MISMATCH,
    SQLITE_MISUSE,
    SQLITE_NOLFS,
    SQLITE_AUTH,
    SQLITE_FORMAT,
    SQLITE_RANGE,
    SQLITE_NOTADB,
    SQLITE_ROW,
    SQLITE_DONE,
}

impl ResultCode {
    /// The numeric code the engine uses for this status.
    pub open spec fn spec_code(self) -> int {
        match self {
            ResultCode::SQLITE_OK => 0,
            ResultCode::SQLITE_ERROR => 1,
            ResultCode::SQLITE_INTERNAL => 2,
            ResultCode::SQLITE_PERM => 3,
            ResultCode::SQLITE_ABORT => 4,
            ResultCode::SQLITE_BUSY => 5,
            ResultCode::SQLITE_LOCKED => 6,
            ResultCode::SQLITE_NOMEM => 7,
            ResultCode::SQLITE_READONLY => 8,
            ResultCode::SQLITE_INTERRUPT => 9,
            ResultCode::SQLITE_IOERR => 10,
            ResultCode::SQLITE_CORRUPT => 11,
            ResultCode::SQLITE_NOTFOUND => 12,
            ResultCode::SQLITE_FULL => 13,
            ResultCode::SQLITE_CANTOPEN => 14,
            ResultCode::SQLITE_PROTOCOL => 15,
            ResultCode::SQLITE_EMPTY => 16,
            ResultCode::SQLITE_SCHEMA => 17,
            ResultCode::SQLITE_TOOBIG => 18,
            ResultCode::SQLITE_CONSTRAINT => 19,
            ResultCode::SQLITE_MISMATCH => 20,
            ResultCode::SQLITE_MISUSE => 21,
            ResultCode::SQLITE_NOLFS => 22,
            ResultCode::SQLITE_AUTH => 23,
            ResultCode::SQLITE_FORMAT => 24,
            ResultCode::SQLITE_RANGE => 25,
            ResultCode::SQLITE_NOTADB => 26,
            ResultCode::SQLITE_ROW => 100,
            ResultCode::SQLITE_DONE => 101,
        }
    }

    /// The status a numeric code of the engine names.  A code outside the
    /// vocabulary is reported as the generic `SQLITE_ERROR`.
    pub open spec fn spec_of_code(code: int) -> ResultCode {
        if code == 0 {
            ResultCode::SQLITE_OK
        } else if code == 2 {
            ResultCode::SQLITE_INTERNAL
        } else if code == 3 {
            ResultCode::SQLITE_PERM
        } else if code == 4 {
            ResultCode::SQLITE_ABORT
        } else if code == 5 {
            ResultCode::SQLITE_BUSY
        } else if code == 6 {
            ResultCode::SQLITE_LOCKED
        } else if code == 7 {
            ResultCode::SQLITE_NOMEM
        } else if code == 8 {
            ResultCode::SQLITE_READONLY
        } else if code == 9 {
            ResultCode::SQLITE_INTERRUPT
        } else if code == 10 {
            ResultCode::SQLITE_IOERR
        } else if code == 11 {
            ResultCode::SQLITE_CORRUPT
        } else if code == 12 {
            ResultCode::SQLITE_NOTFOUND
        } else if code == 13 {
            ResultCode::SQLITE_FULL
        } else if code == 14 {
            ResultCode::SQLITE_CANTOPEN
        } else if code == 15 {
            ResultCode::SQLITE_PROTOCOL
        } else if code == 16 {
            ResultCode::SQLITE_EMPTY
        } else if code == 17 {
            ResultCode::SQLITE_SCHEMA
        } else if code == 18 {
            ResultCode::SQLITE_TOOBIG
        } else if code == 19 {
            ResultCode::SQLITE_CONSTRAINT
        } else if code == 20 {
            ResultCode::SQLITE_MISMATCH
        } else if code == 21 {
            ResultCode::SQLITE_MISUSE
        } else if code == 22 {
            ResultCode::SQLITE_NOLFS
        } else if code == 23 {
            ResultCode::SQLITE_AUTH
        } else if code == 24 {
            ResultCode::SQLITE_FORMAT
        } else if code == 25 {
            ResultCode::SQLITE_RANGE
        } else if code == 26 {
            ResultCode::SQLITE_NOTADB
        } else if code == 100 {
            ResultCode::SQLITE_ROW
        } else if code == 101 {
            ResultCode::SQLITE_DONE
        } else {
            ResultCode::SQLITE_ERROR
        }
    }

    /// The numeric code of this status, as the engine reports it.
    pub fn code(&self) -> (r: isize)
        ensures
            r as int == self.spec_code(),
    {
        match self {
            ResultCode::SQLITE_OK => 0,
            ResultCode::SQLITE_ERROR => 1,
            ResultCode::SQLITE_INTERNAL => 2,
            ResultCode::SQLITE_PERM => 3,
            ResultCode::SQLITE_ABORT => 4,
            ResultCode::SQLITE_BUSY => 5,
            ResultCode::SQLITE_LOCKED => 6,
            ResultCode::SQLITE_NOMEM => 7,
            ResultCode::SQLITE_READONLY => 8,
            ResultCode::SQLITE_INTERRUPT => 9,
            ResultCode::SQLITE_IOERR => 10,
            ResultCode::SQLITE_CORRUPT => 11,
            ResultCode::SQLITE_NOTFOUND => 12,
            ResultCode::SQLITE_FULL => 13,
            ResultCode::SQLITE_CANTOPEN => 14,
            ResultCode::SQLITE_PROTOCOL => 15,
            ResultCode::SQLITE_EMPTY => 16,
            ResultCode::SQLITE_SCHEMA => 17,
            ResultCode::SQLITE_TOOBIG => 18,
            ResultCode::SQLITE_CONSTRAINT => 19,
            ResultCode::SQLITE_MISMATCH => 20,
            ResultCode::SQLITE_MISUSE => 21,
            ResultCode::SQLITE_NOLFS => 22,
            ResultCode::SQLITE_AUTH => 23,
            ResultCode::SQLITE_FORMAT => 24,
            ResultCode::SQLITE_RANGE => 25,
            ResultCode::SQLITE_NOTADB => 26,
            ResultCode::SQLITE_ROW => 100,
            ResultCode::SQLITE_DONE => 101,
        }
    }

    /// Translates a numeric code of the engine back into the vocabulary; a
    /// code outside it becomes the generic `SQLITE_ERROR`.
    pub fn from_code(code: isize) -> (r: ResultCode)
        ensures
            r == ResultCode::spec_of_code(code as int),
    {
        if code == 0 {
            ResultCode::SQLITE_OK
        } else if code == 2 {
            ResultCode::SQLITE_INTERNAL
        } else if code == 3 {
            ResultCode::SQLITE_PERM
        } else if code == 4 {
            ResultCode::SQLITE_ABORT
        } else if code == 5 {
            ResultCode::SQLITE_BUSY
        } else if code == 6 {
            ResultCode::SQLITE_LOCKED
        } else if code == 7 {
            ResultCode::SQLITE_NOMEM
        } else if code == 8 {
            ResultCode::SQLITE_READONLY
        } else if code == 9 {
            ResultCode::SQLITE_INTERRUPT
        } else if code == 10 {
            ResultCode::SQLITE_IOERR
        } else if code == 11 {
            ResultCode::SQLITE_CORRUPT
        } else if code == 12 {
            ResultCode::SQLITE_NOTFOUND
        } else if code == 13 {
            ResultCode::SQLITE_FULL
        } else if code == 14 {
            ResultCode::SQLITE_CANTOPEN
        } else if code == 15 {
            ResultCode::SQLITE_PROTOCOL
        } else if code == 16 {
            ResultCode::SQLITE_EMPTY
        } else if code == 17 {
            ResultCode::SQLITE_SCHEMA
        } else if code == 18 {
            ResultCode::SQLITE_TOOBIG
        } else if code == 19 {
            ResultCode::SQLITE_CONSTRAINT
        } else if code == 20 {
            ResultCode::SQLITE_MISMATCH
        } else if code == 21 {
            ResultCode::SQLITE_MISUSE
        } else if code == 22 {
            ResultCode::SQLITE_NOLFS
        } else if code == 23 {
            ResultCode::SQLITE_AUTH
        } else if code == 24 {
            ResultCode::SQLITE_FORMAT
        } else if code == 25 {
            ResultCode::SQLITE_RANGE
        } else if code == 26 {
            ResultCode::SQLITE_NOTADB
        } else if code == 100 {
            ResultCode::SQLITE_ROW
        } else if code == 101 {
            ResultCode::SQLITE_DONE
        } else {
            ResultCode::SQLITE_ERROR
        }
    }

    /// Translates the error channel of the engine layer: a call that failed
    /// hands back either the engine's own code, or no code at all when the
    /// layer rejected the arguments before reaching the engine, which is
    /// reported as `SQLITE_MISUSE`.
    pub fn from_error_code(code: Option<isize>) -> (r: ResultCode)
        ensures
            r == (match code {
                Some(c) => ResultCode::spec_of_code(c as int),
                None => ResultCode::SQLITE_MISUSE,
            }),
    {
        match code {
            Some(c) => ResultCode::from_code(c),
            None => ResultCode::SQLITE_MISUSE,
        }
    }
}

/// Translating a status to its numeric code and back yields the same
/// status: the vocabulary and the engine's numbers are in one-to-one
/// correspondence.
pub proof fn lemma_code_round_trip(rc: ResultCode)
    ensures
        ResultCode::spec_of_code(rc.spec_code()) == rc,
{
}

/// The dynamic storage class the engine reports for a value, independent of
/// any declared schema type.
#[allow(non_camel_case_types)]
#[derive(Clone, Copy, Debug, PartialEq, Eq, Structural)]
pub enum ColumnType {
    SQLITE_INTEGER,
    SQLITE_FLOAT,
    SQLITE_TEXT,
    SQLITE_BLOB,
    SQLITE_NULL,
}

/// A tagged value: the input values that can be bound into a statement's
/// parameters, and also the decoded output values of a result row.
///
/// A double-precision value is carried as its IEEE-754 bit pattern, since
/// the verified core works on integers only; `f64::to_bits` and
/// `f64::from_bits` translate losslessly at the boundary.
#[derive(Clone, Debug, PartialEq)]
pub enum BindArg {
    /// Owned text; the engine makes its own copy of the bytes at bind time,
    /// so the source may be freed or changed as soon as the call returns.
    Text(String),
    /// Borrowed text with a `'static` lifetime.  A static-text binding
    /// obliges the caller to keep the bytes valid and unchanged for as
    /// long as the statement uses them; the `'static` bound makes that
    /// obligation impossible to break from safe code.  The engine layer
    /// used here copies bound text regardless, so this variant differs
    /// from `Text` only in borrowing its bytes instead of owning them.
    StaticText(&'static str),
    /// Owned bytes; copied by the engine at bind time, like `Text`.
    Blob(Vec<u8>),
    /// The engine's machine integer.
    Integer(i64),
    /// A 64-bit signed integer.
    Integer64(i64),
    /// A double-precision number, as its IEEE-754 bit pattern.
    Float64(u64),
    /// The SQL NULL value.
    Null,
}

/// The number of bytes a value hands to the engine at bind time: the
/// UTF-8 byte count for text, the byte count for a blob, and nothing for
/// the by-value variants.
pub open spec fn payload_byte_len(value: BindArg) -> nat {
    match value {
        BindArg::Text(s) => vstd::utf8::encode_utf8(s@).len(),
        BindArg::StaticText(s) => vstd::utf8::encode_utf8(s@).len(),
        BindArg::Blob(b) => b@.len(),
        BindArg::Integer(_) => 0,
        BindArg::Integer64(_) => 0,
        BindArg::Float64(_) => 0,
        BindArg::Null => 0,
    }
}

} // verus!
