//! The database cursor: exclusive owner of one prepared statement.
//!
//! A `Cursor` is obtained by preparing SQL text on a connection and handing
//! the resulting statement to [`cursor_with_statement`].  The cursor's
//! lifetime parameter is the connection's, so the borrow checker rejects
//! any use of a cursor after its connection is gone; and since the cursor
//! owns the statement, the statement's native handle is finalized exactly
//! once, when the cursor is dropped — also on early-exit paths.
//!
//! Beside the statement, a cursor carries a verified model of its own
//! bindings: which 1-based parameter indices were bound since construction
//! or the last clearing ([`Cursor::bound_params`]), and which value each
//! parameter the cursor ever bound currently holds
//! ([`Cursor::bound_values`], a ghost map maintained by the verified
//! code).  The binding contracts are stated over that model.
//!
//! Stepping past `SQLITE_DONE` without an intervening [`Cursor::reset`] is
//! left undefined by the engine; it is a caller error and is not guarded
//! here.

use crate::engine;
use crate::engine::{parameter_index_of, statement_columns};
use crate::row::{row_from_columns, RowMap};
use crate::types::{payload_byte_len, BindArg, ColumnType, ResultCode};
use vstd::prelude::*;

verus! {

/// The database cursor.
///
/// A cursor owns exactly one prepared statement; no other component may
/// hold or finalize that handle.  It is bound to the parent connection's
/// lifetime `'db`, is movable but not copyable, and confines the handle to
/// one thread of control.
pub struct Cursor<'db> {
    stmt: sqlite::Statement<'db>,
    names: Vec<String>,
    bound: Vec<usize>,
    bindings: Ghost<Map<usize, BindArg>>,
}

/// Wraps a statement freshly prepared on a live connection into a cursor.
///
/// The statement carries its connection's lifetime, so the returned cursor
/// cannot be stored, returned, or used beyond the connection's own
/// lifetime.
pub fn cursor_with_statement<'db>(stmt: sqlite::Statement<'db>) -> (c: Cursor<'db>)
    ensures
        c.wf(),
        c.columns() == statement_columns(stmt),
        c.bound_params() == Seq::<usize>::empty(),
        c.bound_values() == Map::<usize, BindArg>::empty(),
{
    let names = engine::column_names_raw(&stmt);
    Cursor { stmt, names, bound: Vec::new(), bindings: Ghost(Map::empty()) }
}

/// The values of `values` up to position `m` went to the parameters: for
/// each `k < m`, parameter `k + 1` now holds `values[k]`; exactly the
/// indices `1..=m` joined the domain of the value map and the record of
/// bound parameters; every other parameter kept its value.
pub open spec fn binds_prefix(pre: Cursor, post: Cursor, values: Seq<BindArg>, m: int) -> bool {
    &&& forall|k: int| 0 <= k < m ==> post.bound_values()[((k + 1) as usize)] == values[k]
    &&& forall|i: usize|
        #[trigger] post.bound_values().dom().contains(i) <==> (pre.bound_values().dom().contains(i)
            || 1 <= i <= m)
    &&& forall|i: usize|
        #[trigger] pre.bound_values().dom().contains(i) && !(1 <= i <= m)
            ==> post.bound_values()[i] == pre.bound_values()[i]
    &&& forall|i: usize|
        #[trigger] post.bound_params().contains(i) <==> (pre.bound_params().contains(i) || 1 <= i
            <= m)
}

impl<'db> Cursor<'db> {
    /// The result-column names of the statement, in column order.
    pub closed spec fn columns(self) -> Seq<Seq<char>> {
        self.names.deep_view()
    }

    /// The 1-based parameter indices bound since construction or since the
    /// last successful [`Cursor::clear_bindings`], each recorded once.
    pub closed spec fn bound_params(self) -> Seq<usize> {
        self.bound@
    }

    /// The value each parameter this cursor ever bound currently holds;
    /// a cleared parameter holds [`BindArg::Null`].  Parameters the cursor
    /// never bound are not in the map (the engine keeps them at SQL NULL
    /// until they are bound).
    pub closed spec fn bound_values(self) -> Map<usize, BindArg> {
        self.bindings@
    }

    /// The 1-based index of the named parameter in the statement's
    /// parameter table, 0 when there is none.
    pub closed spec fn spec_bind_index(self, name: Seq<char>) -> usize {
        parameter_index_of(self.stmt, name)
    }

    /// The cursor's invariant: the cached column names are the statement's;
    /// every recorded index is a valid parameter index with a tracked
    /// value; a tracked parameter that is not recorded has been cleared
    /// back to NULL.
    pub closed spec fn wf(self) -> bool {
        &&& self.names.deep_view() == statement_columns(self.stmt)
        &&& self.bound@.no_duplicates()
        &&& forall|i: usize|
            #[trigger] self.bound@.contains(i) ==> 1 <= i < 0x8000_0000
                && self.bindings@.dom().contains(i)
        &&& forall|i: usize|
            #[trigger] self.bindings@.dom().contains(i) && !self.bound@.contains(i)
                ==> self.bindings@[i] == BindArg::Null
    }

    /// Resets the prepared statement for re-execution.  Bindings are kept:
    /// resetting and clearing bindings are independent operations.
    pub fn reset(&mut self) -> (r: ResultCode)
        requires
            old(self).wf(),
        ensures
            final(self).wf(),
            final(self).columns() == old(self).columns(),
            final(self).bound_params() == old(self).bound_params(),
            final(self).bound_values() == old(self).bound_values(),
    {
        match engine::reset_raw(&mut self.stmt) {
            Ok(()) => ResultCode::SQLITE_OK,
            Err(code) => ResultCode::from_error_code(code),
        }
    }

    /// Sets every parameter this cursor has bound since the last clearing
    /// back to SQL NULL, by binding NULL at each recorded index.  On
    /// success the record of bound parameters is empty again and every
    /// tracked parameter holds NULL; on failure the first failing bind's
    /// code is returned, the record is kept, and each tracked parameter
    /// holds NULL or its previous value.
    ///
    /// The engine's one-call clear operation is not exposed by the engine
    /// layer used here, so this rebinding stands in for it.  Two limits
    /// follow: parameters bound on the statement before it was wrapped
    /// into a cursor are not cleared, and — like any bind — the rebinding
    /// is refused by the engine between a step and the next reset, where
    /// the one-call form would have succeeded.
    pub fn clear_bindings(&mut self) -> (r: ResultCode)
        requires
            old(self).wf(),
        ensures
            final(self).wf(),
            final(self).columns() == old(self).columns(),
            final(self).bound_values().dom() == old(self).bound_values().dom(),
            r == ResultCode::SQLITE_OK ==> final(self).bound_params() == Seq::<usize>::empty() && (
            forall|i: usize| #[trigger]
                final(self).bound_values().dom().contains(i)
                    ==> final(self).bound_values()[i] == BindArg::Null),
            r != ResultCode::SQLITE_OK ==> final(self).bound_params() == old(self).bound_params()
                && (forall|i: usize| #[trigger]
                final(self).bound_values().dom().contains(i)
                    ==> (final(self).bound_values()[i] == BindArg::Null || final(
                self).bound_values()[i] == old(self).bound_values()[i])),
    {
        let n = self.bound.len();
        let mut k: usize = 0;
        while k < n
            invariant
                n == self.bound@.len(),
                k <= n,
                old(self).wf(),
                self.names@ == old(self).names@,
                self.names.deep_view() == statement_columns(self.stmt),
                self.bound@ == old(self).bound@,
                self.bindings@.dom() == old(self).bindings@.dom(),
                forall|w: int| 0 <= w < k ==> self.bindings@[self.bound@[w]] == BindArg::Null,
                forall|i: usize|
                    #[trigger] self.bindings@.dom().contains(i) ==> (self.bindings@[i]
                        == BindArg::Null || self.bindings@[i] == old(self).bindings@[i]),
            decreases n - k,
        {
            let idx = self.bound[k];
            proof {
                assert(self.bound@.contains(self.bound@[k as int]));
                assert(old(self).bound@.contains(idx));
            }
            match engine::bind_null_raw(&mut self.stmt, idx) {
                Ok(()) => {
                    proof {
                        assert(self.bindings@.insert(idx, BindArg::Null).dom()
                            =~= self.bindings@.dom());
                    }
                    self.bindings = Ghost(self.bindings@.insert(idx, BindArg::Null));
                },
                Err(code) => {
                    return ResultCode::from_error_code(code);
                },
            }
            k += 1;
        }
        proof {
            assert forall|i: usize| #[trigger] self.bindings@.dom().contains(i) implies self
                .bindings@[i] == BindArg::Null by {
                if self.bound@.contains(i) {
                    let w = choose|w: int| 0 <= w < self.bound@.len() && self.bound@[w] == i;
                    assert(self.bindings@[self.bound@[w]] == BindArg::Null);
                } else {
                    assert(old(self).bindings@[i] == BindArg::Null);
                }
            }
        }
        self.bound = Vec::new();
        ResultCode::SQLITE_OK
    }

    /// Advances the statement's execution by one step: `SQLITE_ROW` when a
    /// result row is available for reading, `SQLITE_DONE` when execution is
    /// complete, and an error code otherwise — never `SQLITE_OK`.
    pub fn step(&mut self) -> (r: ResultCode)
        requires
            old(self).wf(),
        ensures
            final(self).wf(),
            final(self).columns() == old(self).columns(),
            final(self).bound_params() == old(self).bound_params(),
            final(self).bound_values() == old(self).bound_values(),
            r != ResultCode::SQLITE_OK,
    {
        match engine::step_raw(&mut self.stmt) {
            Ok(true) => ResultCode::SQLITE_ROW,
            Ok(false) => ResultCode::SQLITE_DONE,
            Err(code) => ResultCode::from_error_code(code),
        }
    }

    /// Steps once and, if a row is available, materializes it through
    /// [`row_from_columns`]: every column from 0 to column-count − 1 is
    /// decoded by its reported storage class and keyed by its column name.
    ///
    /// `Ok(None)` is the expected end of the result set (`SQLITE_DONE`).
    /// Any other engine code is returned as the failure, without any
    /// column being decoded.  Two result columns sharing one name are a
    /// defect of the query itself, not a data condition: such statements
    /// are excluded by precondition, and materialization of one is proved
    /// unreachable.
    pub fn step_row(&mut self) -> (r: Result<Option<RowMap>, ResultCode>)
        requires
            old(self).wf(),
            old(self).columns().no_duplicates(),
        ensures
            final(self).wf(),
            final(self).columns() == old(self).columns(),
            final(self).bound_params() == old(self).bound_params(),
            final(self).bound_values() == old(self).bound_values(),
            match r {
                Ok(Some(row)) => row.wf() && row@.len() == old(self).columns().len() && (forall|
                    k: int,
                |
                    0 <= k < row@.len() ==> row@[k].0 == old(self).columns()[k]),
                Ok(None) => true,
                Err(c) => c != ResultCode::SQLITE_ROW && c != ResultCode::SQLITE_DONE && c
                    != ResultCode::SQLITE_OK,
            },
    {
        let rc = self.step();
        if rc == ResultCode::SQLITE_ROW {
            let n = self.names.len();
            let mut vals: Vec<BindArg> = Vec::new();
            let mut i: usize = 0;
            while i < n
                invariant
                    n == self.names@.len(),
                    i <= n,
                    self.wf(),
                    self.columns() == old(self).columns(),
                    self.bound_params() == old(self).bound_params(),
                    self.bound_values() == old(self).bound_values(),
                    vals@.len() == i,
                decreases n - i,
            {
                let ct = engine::column_type_raw(&self.stmt, i).unwrap();
                let value = match ct {
                    ColumnType::SQLITE_INTEGER => BindArg::Integer(
                        engine::read_i64_raw(&self.stmt, i).unwrap(),
                    ),
                    ColumnType::SQLITE_FLOAT => BindArg::Float64(
                        engine::read_double_bits_raw(&self.stmt, i).unwrap(),
                    ),
                    ColumnType::SQLITE_TEXT => {
                        match engine::read_text_raw(&self.stmt, i) {
                            Some(s) => BindArg::Text(s),
                            None => {
                                // An in-range text read fails only when the
                                // engine cannot hand out a buffer: memory
                                // exhaustion.
                                return Err(ResultCode::SQLITE_NOMEM);
                            },
                        }
                    },
                    ColumnType::SQLITE_BLOB => BindArg::Blob(
                        engine::read_blob_raw(&self.stmt, i).unwrap(),
                    ),
                    ColumnType::SQLITE_NULL => BindArg::Null,
                };
                vals.push(value);
                i += 1;
            }
            match row_from_columns(&self.names, vals) {
                Ok(row) => Ok(Some(row)),
                Err(_) => {
                    proof {
                        let (p, q) = choose|p: int, q: int|
                            0 <= p < q < self.names@.len() && self.names.deep_view()[p]
                                == self.names.deep_view()[q];
                        assert(old(self).columns()[p] == old(self).columns()[q]);
                        assert(false);
                    }
                    unreached()
                },
            }
        } else if rc == ResultCode::SQLITE_DONE {
            Ok(None)
        } else {
            Err(rc)
        }
    }

    /// The number of columns in the result set, as the statement was
    /// prepared.  (The engine also offers a data count that is 0 before
    /// any ROW-producing step; the two agree wherever the column
    /// operations are defined, after such a step.)
    pub fn get_column_count(&self) -> (r: usize)
        ensures
            r == self.columns().len(),
    {
        self.names.len()
    }

    /// The name of the column at a 0-based index, as an owned copy, or
    /// `None` when the index is out of range.
    pub fn get_column_name(&self, i: usize) -> (r: Option<String>)
        ensures
            match r {
                Some(s) => i < self.columns().len() && s@ == self.columns()[i as int],
                None => i >= self.columns().len(),
            },
    {
        if i < self.names.len() {
            Some(self.names[i].clone())
        } else {
            None
        }
    }

    /// The names of all result columns, in column order.
    pub fn get_column_names(&self) -> (r: Vec<String>)
        ensures
            r.deep_view() == self.columns(),
    {
        let n = self.names.len();
        let mut out: Vec<String> = Vec::new();
        let mut i: usize = 0;
        while i < n
            invariant
                n == self.names@.len(),
                i <= n,
                out@.len() == i,
                forall|k: int| 0 <= k < i ==> out.deep_view()[k] == self.columns()[k],
            decreases n - i,
        {
            out.push(self.names[i].clone());
            i += 1;
        }
        assert(out.deep_view() =~= self.columns());
        out
    }

    /// The dynamic storage class of the value at a 0-based column index of
    /// the current row; the read succeeds exactly on an in-range index.  A
    /// value holding SQL NULL reports `SQLITE_NULL`; a zero-length text
    /// value reports `SQLITE_TEXT`, distinguishable from NULL.
    pub fn get_column_type(&self, i: usize) -> (r: Option<ColumnType>)
        requires
            self.wf(),
        ensures
            r is Some <==> i < self.columns().len(),
    {
        engine::column_type_raw(&self.stmt, i)
    }

    /// The 1-based positional index of a named parameter, or 0 when the
    /// statement has no parameter of that name.  (A name holding an
    /// interior NUL byte cannot be handed to the engine and resolves to
    /// 0.)
    pub fn get_bind_index(&self, name: &str) -> (r: usize)
        ensures
            name@.contains('\u{0}') ==> r == 0,
            !name@.contains('\u{0}') ==> r == self.spec_bind_index(name@),
    {
        match engine::parameter_index_raw(&self.stmt, name) {
            Some(i) => i,
            None => 0,
        }
    }

    /// Binds one value at a 1-based parameter index.  `Text` and `Blob`
    /// are copied by the engine layer at bind time; so, here, is
    /// `StaticText`, whose `'static` lifetime would keep even a no-copy
    /// binding sound; the numeric variants and `Null` are bound by value.
    ///
    /// An index at or above 2³¹ cannot be expressed to the engine and is
    /// refused as `SQLITE_RANGE`; a text or blob payload of 2³¹ bytes or
    /// more likewise cannot and is refused as `SQLITE_TOOBIG`.  On success
    /// the index joins the record of bound
    /// parameters and the value map notes what it holds.
    pub fn bind_param(&mut self, i: usize, value: &BindArg) -> (r: ResultCode)
        requires
            old(self).wf(),
            i >= 1,
        ensures
            final(self).wf(),
            final(self).columns() == old(self).columns(),
            i >= 0x8000_0000 ==> r == ResultCode::SQLITE_RANGE,
            i < 0x8000_0000 && payload_byte_len(*value) >= 0x8000_0000 ==> r
                == ResultCode::SQLITE_TOOBIG,
            r == ResultCode::SQLITE_OK ==> final(self).bound_values() == old(
                self,
            ).bound_values().insert(i, *value) && final(self).bound_params() == (if old(
                self,
            ).bound_params().contains(i) {
                old(self).bound_params()
            } else {
                old(self).bound_params().push(i)
            }),
            r != ResultCode::SQLITE_OK ==> final(self).bound_params() == old(self).bound_params()
                && final(self).bound_values() == old(self).bound_values(),
    {
        if i >= 0x8000_0000 {
            return ResultCode::SQLITE_RANGE;
        }
        let outcome = match value {
            BindArg::Text(v) => {
                let s = v.as_str();
                if s.as_bytes().len() >= 0x8000_0000 {
                    return ResultCode::SQLITE_TOOBIG;
                }
                engine::bind_text_raw(&mut self.stmt, i, s)
            },
            BindArg::StaticText(v) => {
                if v.as_bytes().len() >= 0x8000_0000 {
                    return ResultCode::SQLITE_TOOBIG;
                }
                engine::bind_text_raw(&mut self.stmt, i, v)
            },
            BindArg::Blob(v) => {
                let s = v.as_slice();
                if s.len() >= 0x8000_0000 {
                    return ResultCode::SQLITE_TOOBIG;
                }
                engine::bind_blob_raw(&mut self.stmt, i, s)
            },
            BindArg::Integer(v) => engine::bind_i64_raw(&mut self.stmt, i, *v),
            BindArg::Integer64(v) => engine::bind_i64_raw(&mut self.stmt, i, *v),
            BindArg::Float64(bits) => engine::bind_double_bits_raw(&mut self.stmt, i, *bits),
            BindArg::Null => engine::bind_null_raw(&mut self.stmt, i),
        };
        match outcome {
            Ok(()) => {
                self.bindings = Ghost(self.bindings@.insert(i, *value));
                self.record_binding(i);
                proof {
                    if !old(self).bound@.contains(i) {
                        assert(self.bound@[self.bound@.len() - 1] == i);
                    }
                    assert(self.bound@.contains(i));
                    assert forall|p: int, q: int|
                        0 <= p < self.bound@.len() && 0 <= q < self.bound@.len() && p
                            != q implies self.bound@[p] != self.bound@[q] by {
                        let prior_len = old(self).bound@.len() as int;
                        if p < prior_len && q < prior_len {
                            assert(old(self).bound@[p] != old(self).bound@[q]);
                        } else if p >= prior_len && self.bound@[q] == i {
                            assert(old(self).bound@[q] == i);
                            assert(old(self).bound@.contains(i));
                        } else if q >= prior_len && self.bound@[p] == i {
                            assert(old(self).bound@[p] == i);
                            assert(old(self).bound@.contains(i));
                        }
                    }
                    assert forall|j: usize| #[trigger] self.bound@.contains(j) implies 1 <= j
                        < 0x8000_0000 && self.bindings@.dom().contains(j) by {
                        if j != i {
                            let w = choose|w: int| 0 <= w < self.bound@.len() && self.bound@[w]
                                == j;
                            if w < old(self).bound@.len() {
                                assert(old(self).bound@.contains(j));
                            }
                        }
                    }
                    assert forall|j: usize|
                        #[trigger] self.bindings@.dom().contains(j) && !self.bound@.contains(
                            j,
                        ) implies self.bindings@[j] == BindArg::Null by {
                        assert(j != i);
                        if old(self).bound@.contains(j) {
                            let w = choose|w: int|
                                0 <= w < old(self).bound@.len() && old(self).bound@[w] == j;
                            assert(self.bound@[w] == j);
                            assert(self.bound@.contains(j));
                        }
                        assert(old(self).bindings@.dom().contains(j));
                    }
                }
                ResultCode::SQLITE_OK
            },
            Err(code) => ResultCode::from_error_code(code),
        }
    }

    /// Binds each value of `values` in sequence order to the positional
    /// indices 1..=N, stopping at the first non-`SQLITE_OK` code and
    /// returning it.  On `SQLITE_OK` all N values are in place:
    /// [`binds_prefix`] with the whole sequence.  On failure, only the
    /// values before the first failing index were bound, and the later
    /// parameters are untouched: [`binds_prefix`] with some proper prefix.
    pub fn bind_params(&mut self, values: &[BindArg]) -> (r: ResultCode)
        requires
            old(self).wf(),
        ensures
            final(self).wf(),
            final(self).columns() == old(self).columns(),
            r == ResultCode::SQLITE_OK ==> binds_prefix(
                *old(self),
                *final(self),
                values@,
                values@.len() as int,
            ),
            r != ResultCode::SQLITE_OK ==> exists|m: int|
                0 <= m < values@.len() && binds_prefix(*old(self), *final(self), values@, m),
    {
        let n = values.len();
        let mut idx: usize = 0;
        while idx < n
            invariant
                n == values@.len(),
                idx <= n,
                self.wf(),
                self.columns() == old(self).columns(),
                binds_prefix(*old(self), *self, values@, idx as int),
            decreases n - idx,
        {
            let ghost prev = *self;
            let r = self.bind_param(idx + 1, &values[idx]);
            if r != ResultCode::SQLITE_OK {
                proof {
                    assert(binds_prefix(*old(self), *self, values@, idx as int));
                }
                return r;
            }
            proof {
                let next: usize = (idx + 1) as usize;
                assert forall|k: int| 0 <= k < idx + 1 implies self.bound_values()[((k + 1)
                    as usize)] == values@[k] by {
                    if k < idx {
                        assert(prev.bound_values()[((k + 1) as usize)] == values@[k]);
                    }
                }
                assert forall|i: usize| #[trigger] self.bound_values().dom().contains(i) <==> (old(
                    self,
                ).bound_values().dom().contains(i) || 1 <= i <= idx + 1) by {
                    assert(self.bound_values().dom() =~= prev.bound_values().dom().insert(next));
                }
                assert forall|i: usize|
                    #[trigger] old(self).bound_values().dom().contains(i) && !(1 <= i <= idx
                        + 1) implies self.bound_values()[i] == old(self).bound_values()[i] by {
                    assert(prev.bound_values()[i] == old(self).bound_values()[i]);
                    assert(i != next);
                }
                assert forall|i: usize| #[trigger] self.bound_params().contains(i) <==> (old(
                    self,
                ).bound_params().contains(i) || 1 <= i <= idx + 1) by {
                    if self.bound_params().contains(i) {
                        let w = choose|w: int|
                            0 <= w < self.bound_params().len() && self.bound_params()[w] == i;
                        if w < prev.bound_params().len() {
                            assert(prev.bound_params().contains(i));
                        }
                    }
                    if old(self).bound_params().contains(i) || 1 <= i <= idx {
                        assert(prev.bound_params().contains(i));
                        let w = choose|w: int|
                            0 <= w < prev.bound_params().len() && prev.bound_params()[w] == i;
                        assert(self.bound_params()[w] == i);
                    } else if i == next {
                        if prev.bound_params().contains(next) {
                            let w = choose|w: int|
                                0 <= w < prev.bound_params().len() && prev.bound_params()[w]
                                    == next;
                            assert(self.bound_params()[w] == i);
                        } else {
                            assert(self.bound_params()[prev.bound_params().len() as int] == next);
                        }
                    }
                }
            }
            idx += 1;
        }
        ResultCode::SQLITE_OK
    }

    /// The value at a 0-based column index of the current row, coerced to
    /// the engine's machine integer; the read succeeds exactly on an
    /// in-range index.
    pub fn get_int(&self, i: usize) -> (r: Option<i64>)
        requires
            self.wf(),
        ensures
            r is Some <==> i < self.columns().len(),
    {
        engine::read_i64_raw(&self.stmt, i)
    }

    /// The value at a 0-based column index of the current row, coerced to
    /// a 64-bit integer; the read succeeds exactly on an in-range index.
    pub fn get_i64(&self, i: usize) -> (r: Option<i64>)
        requires
            self.wf(),
        ensures
            r is Some <==> i < self.columns().len(),
    {
        engine::read_i64_raw(&self.stmt, i)
    }

    /// The value at a 0-based column index of the current row, coerced to
    /// a double by the engine's conversion rules, as its IEEE-754 bit
    /// pattern; the read succeeds exactly on an in-range index.
    /// `f64::from_bits` recovers the number at the caller.
    pub fn get_f64(&self, i: usize) -> (r: Option<u64>)
        requires
            self.wf(),
        ensures
            r is Some <==> i < self.columns().len(),
    {
        engine::read_double_bits_raw(&self.stmt, i)
    }

    /// The value at a 0-based column index of the current row, coerced to
    /// owned text; `None` for SQL NULL, for which the engine hands out no
    /// buffer, and for an index out of range.  A zero-length text value is
    /// `Some` of the empty string, distinct from NULL.  (The engine layer
    /// decodes the buffer as a C string: text past an embedded NUL byte is
    /// dropped and invalid UTF-8 replaced.)
    pub fn get_text(&self, i: usize) -> (r: Option<String>)
        requires
            self.wf(),
        ensures
            i >= self.columns().len() ==> r is None,
    {
        engine::read_text_raw(&self.stmt, i)
    }

    /// The value at a 0-based column index of the current row, coerced to
    /// owned bytes; the read succeeds exactly on an in-range index.  A
    /// value without a buffer — SQL NULL, or a zero-length blob — comes
    /// back empty; whether the value is NULL is reported by
    /// [`Cursor::get_column_type`], and a materialized row keeps `Null`
    /// and `Blob([])` apart.
    pub fn get_blob(&self, i: usize) -> (r: Option<Vec<u8>>)
        requires
            self.wf(),
        ensures
            r is Some <==> i < self.columns().len(),
    {
        engine::read_blob_raw(&self.stmt, i)
    }

    /// Records a successfully bound 1-based index, once.
    fn record_binding(&mut self, i: usize)
        ensures
            final(self).stmt == old(self).stmt,
            final(self).names == old(self).names,
            final(self).bound_values() == old(self).bound_values(),
            final(self).bound_params() == (if old(self).bound_params().contains(i) {
                old(self).bound_params()
            } else {
                old(self).bound_params().push(i)
            }),
    {
        let n = self.bound.len();
        let mut k: usize = 0;
        while k < n
            invariant
                n == self.bound@.len(),
                k <= n,
                self.stmt == old(self).stmt,
                self.names == old(self).names,
                self.bindings@ == old(self).bindings@,
                self.bound@ == old(self).bound@,
                forall|w: int| 0 <= w < k ==> self.bound@[w] != i,
            decreases n - k,
        {
            if self.bound[k] == i {
                assert(old(self).bound_params().contains(i));
                return ;
            }
            k += 1;
        }
        assert(!old(self).bound_params().contains(i));
        self.bound.push(i);
    }
}

} // verus!
