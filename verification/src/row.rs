//! A materialized result row: a mapping from column name to decoded value.
//!
//! Column names are unique within a row; the constructor-side check for a
//! duplicate name is what lets the cursor treat a colliding query as a
//! malformed one instead of silently overwriting a value.

use crate::types::BindArg;
use vstd::prelude::*;

verus! {

/// A result row, mapping each column name to the value decoded for it.
/// Entries keep the column order of the statement, but the mapping itself
/// does not depend on it: names are unique within a well-formed row.
#[derive(Debug, PartialEq)]
pub struct RowMap {
    entries: Vec<(String, BindArg)>,
}

impl View for RowMap {
    type V = Seq<(Seq<char>, BindArg)>;

    closed spec fn view(&self) -> Seq<(Seq<char>, BindArg)> {
        self.entries@.map_values(|e: (String, BindArg)| (e.0@, e.1))
    }
}

/// The value at the first entry of `s` whose name is `name`, if any.
pub open spec fn seq_lookup(s: Seq<(Seq<char>, BindArg)>, name: Seq<char>) -> Option<BindArg>
    decreases s.len(),
{
    if s.len() == 0 {
        None
    } else if s[0].0 == name {
        Some(s[0].1)
    } else {
        seq_lookup(s.drop_first(), name)
    }
}

/// Builds a row from the column names and the values decoded for them,
/// pairing `names[k]` with `values[k]` in column order.  Succeeds exactly
/// when the names are distinct; a colliding name comes back as the error,
/// naming the query defect.
pub fn row_from_columns(names: &Vec<String>, values: Vec<BindArg>) -> (r: Result<RowMap, String>)
    requires
        names@.len() == values@.len(),
    ensures
        match r {
            Ok(row) => row.wf() && names.deep_view().no_duplicates() && row@.len() == names@.len()
                && (forall|k: int|
                0 <= k < row@.len() ==> row@[k] == (names.deep_view()[k], values@[k])),
            Err(name) => exists|i: int, j: int|
                0 <= i < j < names@.len() && names.deep_view()[i] == names.deep_view()[j] && name@
                    == names.deep_view()[j],
        },
{
    let n = names.len();
    let ghost all = values@;
    let mut rest = values;
    let mut row = RowMap::new();
    let mut i: usize = 0;
    proof {
        assert(rest@ =~= all.skip(0));
    }
    while i < n
        invariant
            n == names@.len(),
            n == all.len(),
            i <= n,
            rest@ == all.skip(i as int),
            row.wf(),
            row@.len() == i,
            forall|k: int| 0 <= k < i ==> row@[k] == (names.deep_view()[k], all[k]),
        decreases n - i,
    {
        let name = names[i].clone();
        assert(name@ == names.deep_view()[i as int]);
        proof {
            assert(rest@.len() == all.len() - i);
            assert(rest@[0] == all[i as int]);
        }
        let value = rest.remove(0);
        assert(value == all[i as int]);
        let fresh = row.insert(name, value);
        if !fresh {
            proof {
                let k = choose|k: int|
                    0 <= k < row@.len() && row@[k].0 == names.deep_view()[i as int];
                assert(names.deep_view()[k] == names.deep_view()[i as int]);
            }
            let dup = names[i].clone();
            return Err(dup);
        }
        proof {
            assert(rest@ =~= all.skip(i as int + 1));
        }
        i += 1;
    }
    proof {
        assert forall|p: int, q: int|
            0 <= p < names@.len() && 0 <= q < names@.len() && p != q implies names.deep_view()[p]
            != names.deep_view()[q] by {
            if p < q {
                assert(row@[p].0 != row@[q].0);
            } else {
                assert(row@[q].0 != row@[p].0);
            }
        }
    }
    Ok(row)
}

/// Appending an entry whose name is absent from `s` makes that name look
/// up to the new value.
proof fn lemma_lookup_push_fresh(s: Seq<(Seq<char>, BindArg)>, name: Seq<char>, value: BindArg)
    requires
        forall|k: int| 0 <= k < s.len() ==> s[k].0 != name,
    ensures
        seq_lookup(s.push((name, value)), name) == Some(value),
    decreases s.len(),
{
    if s.len() == 0 {
        assert(s.push((name, value))[0] == (name, value));
    } else {
        assert(s.push((name, value))[0] == s[0]);
        assert(s.push((name, value)).drop_first() =~= s.drop_first().push((name, value)));
        assert forall|k: int| 0 <= k < s.drop_first().len() implies s.drop_first()[k].0
            != name by {
            assert(s.drop_first()[k] == s[k + 1]);
        }
        lemma_lookup_push_fresh(s.drop_first(), name, value);
    }
}

/// Appending an entry leaves the lookup of every other name unchanged.
proof fn lemma_lookup_push_other(
    s: Seq<(Seq<char>, BindArg)>,
    name: Seq<char>,
    value: BindArg,
    other: Seq<char>,
)
    requires
        other != name,
    ensures
        seq_lookup(s.push((name, value)), other) == seq_lookup(s, other),
    decreases s.len(),
{
    if s.len() == 0 {
        assert(s.push((name, value))[0] == (name, value));
        assert(s.push((name, value)).drop_first() =~= Seq::<(Seq<char>, BindArg)>::empty());
    } else {
        assert(s.push((name, value))[0] == s[0]);
        if s[0].0 != other {
            assert(s.push((name, value)).drop_first() =~= s.drop_first().push((name, value)));
            lemma_lookup_push_other(s.drop_first(), name, value, other);
        }
    }
}

impl RowMap {
    /// All column names of the row are distinct.
    pub open spec fn wf(self) -> bool {
        forall|i: int, j: int| 0 <= i < j < self@.len() ==> self@[i].0 != self@[j].0
    }

    /// Whether some entry of the row carries `name`.
    pub open spec fn contains_name(self, name: Seq<char>) -> bool {
        exists|i: int| 0 <= i < self@.len() && self@[i].0 == name
    }

    /// The value the row maps `name` to, if any.
    pub open spec fn spec_get(self, name: Seq<char>) -> Option<BindArg> {
        seq_lookup(self@, name)
    }

    /// An empty row.
    pub fn new() -> (r: RowMap)
        ensures
            r@ == Seq::<(Seq<char>, BindArg)>::empty(),
            r.wf(),
    {
        RowMap { entries: Vec::new() }
    }

    /// The number of columns in the row.
    pub fn len(&self) -> (r: usize)
        ensures
            r == self@.len(),
    {
        self.entries.len()
    }

    /// Appends `value` under `name` if the name is not present yet and
    /// reports whether it was fresh; a row never holds two entries with the
    /// same name, so a colliding insertion leaves the row unchanged.
    pub fn insert(&mut self, name: String, value: BindArg) -> (fresh: bool)
        requires
            old(self).wf(),
        ensures
            final(self).wf(),
            fresh == !old(self).contains_name(name@),
            fresh ==> final(self)@ == old(self)@.push((name@, value)),
            fresh ==> final(self).spec_get(name@) == Some(value),
            !fresh ==> final(self)@ == old(self)@,
            forall|m: Seq<char>|
                m != name@ ==> final(self).spec_get(m) == old(self).spec_get(m),
    {
        let n = self.entries.len();
        let mut i: usize = 0;
        while i < n
            invariant
                n == self@.len(),
                i <= n,
                *self == *old(self),
                old(self).wf(),
                forall|k: int| 0 <= k < i ==> self@[k].0 != name@,
            decreases n - i,
        {
            if self.entries[i].0 == name {
                proof {
                    assert(old(self).contains_name(name@)) by {
                        assert(old(self)@[i as int].0 == name@);
                    }
                }
                return false;
            }
            assert(self@[i as int].0 != name@);
            i += 1;
        }
        let ghost prior = self@;
        self.entries.push((name, value));
        assert(self@ =~= prior.push((name@, value)));
        proof {
            lemma_lookup_push_fresh(prior, name@, value);
            assert forall|m: Seq<char>| m != name@ implies seq_lookup(
                self@,
                m,
            ) == seq_lookup(prior, m) by {
                lemma_lookup_push_other(prior, name@, value, m);
            }
        }
        true
    }

    /// Looks the value up under `name`.
    pub fn get(&self, name: &str) -> (r: Option<&BindArg>)
        ensures
            r is Some == self.contains_name(name@),
            match (r, self.spec_get(name@)) {
                (Some(v), Some(w)) => *v == w,
                (None, None) => true,
                _ => false,
            },
    {
        let wanted: String = name.to_owned();
        let n = self.entries.len();
        let mut i: usize = 0;
        proof {
            assert(self@.skip(0) =~= self@);
        }
        while i < n
            invariant
                n == self@.len(),
                i <= n,
                wanted@ == name@,
                seq_lookup(self@, name@) == seq_lookup(self@.skip(i as int), name@),
                forall|k: int| 0 <= k < i ==> self@[k].0 != name@,
            decreases n - i,
        {
            proof {
                assert(self@.skip(i as int).len() > 0);
                assert(self@.skip(i as int)[0] == self@[i as int]);
            }
            if self.entries[i].0 == wanted {
                proof {
                    assert(seq_lookup(self@.skip(i as int), name@) == Some(self@[i as int].1));
                    assert(self.contains_name(name@)) by {
                        assert(self@[i as int].0 == name@);
                    }
                }
                return Some(&self.entries[i].1);
            }
            proof {
                assert(self@.skip(i as int).drop_first() =~= self@.skip(i as int + 1));
            }
            i += 1;
        }
        assert(self@.skip(n as int) =~= Seq::<(Seq<char>, BindArg)>::empty());
        None
    }
}

} // verus!
