//! A keyed table from account identifiers to values, with distinct keys.
//!
//! This is the library's model of the host's persistent keyed store: a flat
//! list of `(key, value)` rows in which every key occurs at most once. A
//! lookup on an absent key returns `None`; the ledgers layer their own
//! default-on-miss reading on top of that.

use vstd::prelude::*;

verus! {

/// The value stored under key `k` in the rows `s`, if any. The match closest
/// to the end of the sequence wins; under [`distinct_keys`] there is at most
/// one match, so the choice does not matter.
pub open spec fn seq_get<V>(s: Seq<(u64, V)>, k: u64) -> Option<V>
    decreases s.len(),
{
    if s.len() == 0 {
        None
    } else if s.last().0 == k {
        Some(s.last().1)
    } else {
        seq_get(s.drop_last(), k)
    }
}

/// Every key occurs at most once in `s`.
pub open spec fn distinct_keys<V>(s: Seq<(u64, V)>) -> bool {
    forall|i: int, j: int| 0 <= i < j < s.len() ==> s[i].0 != s[j].0
}

/// `seq_get` returns `None` exactly when no row carries the key.
pub proof fn lemma_seq_get_none<V>(s: Seq<(u64, V)>, k: u64)
    ensures
        seq_get(s, k) is None <==> (forall|i: int| 0 <= i < s.len() ==> s[i].0 != k),
    decreases s.len(),
{
    if s.len() > 0 {
        lemma_seq_get_none(s.drop_last(), k);
        assert(s.last() == s[s.len() - 1]);
        assert(forall|i: int| 0 <= i < s.len() - 1 ==> s.drop_last()[i] == s[i]);
    }
}

/// With distinct keys, a row whose key is `k` determines the lookup result.
pub proof fn lemma_seq_get_match<V>(s: Seq<(u64, V)>, i: int, k: u64)
    requires
        distinct_keys(s),
        0 <= i < s.len(),
        s[i].0 == k,
    ensures
        seq_get(s, k) == Some(s[i].1),
    decreases s.len(),
{
    if i == s.len() - 1 {
        assert(s.last() == s[i]);
    } else {
        assert(s.last().0 != k);
        assert(distinct_keys(s.drop_last()));
        assert(s.drop_last()[i] == s[i]);
        lemma_seq_get_match(s.drop_last(), i, k);
    }
}

/// Replacing the row at `i` leaves lookups of other keys unchanged.
pub proof fn lemma_seq_get_update_other<V>(s: Seq<(u64, V)>, i: int, e: (u64, V), k: u64)
    requires
        0 <= i < s.len(),
        s[i].0 != k,
        e.0 != k,
    ensures
        seq_get(s.update(i, e), k) == seq_get(s, k),
    decreases s.len(),
{
    let s2 = s.update(i, e);
    if i == s.len() - 1 {
        assert(s2.last() == e);
        assert(s2.drop_last() =~= s.drop_last());
    } else {
        assert(s2.last() == s.last());
        assert(s2.drop_last() =~= s.drop_last().update(i, e));
        if s.last().0 != k {
            lemma_seq_get_update_other(s.drop_last(), i, e, k);
        }
    }
}

/// Appending a row with a different key leaves the lookup unchanged.
pub proof fn lemma_seq_get_push_other<V>(s: Seq<(u64, V)>, e: (u64, V), k: u64)
    requires
        e.0 != k,
    ensures
        seq_get(s.push(e), k) == seq_get(s, k),
{
    assert(s.push(e).last() == e);
    assert(s.push(e).drop_last() =~= s);
}

/// Association table from account identifiers to values; every key is held
/// at most once.
pub struct Table<V> {
    entries: Vec<(u64, V)>,
}

impl<V> Table<V> {
    /// The rows of the table, in storage order.
    pub closed spec fn rows(self) -> Seq<(u64, V)> {
        self.entries@
    }

    /// Well-formedness: no key occurs twice.
    pub open spec fn wf(self) -> bool {
        distinct_keys(self.rows())
    }

    /// The value stored under `k`, if any.
    pub open spec fn spec_get(self, k: u64) -> Option<V> {
        seq_get(self.rows(), k)
    }

    /// An empty table.
    pub fn new() -> (t: Self)
        ensures
            t.wf(),
            t.rows() == Seq::<(u64, V)>::empty(),
            forall|k: u64| t.spec_get(k) is None,
    {
        let t = Table { entries: Vec::new() };
        proof {
            assert forall|k: u64| t.spec_get(k) is None by {
                lemma_seq_get_none(t.rows(), k);
            }
        }
        t
    }

    /// The index of the row holding `k`, if one exists.
    fn find_index(&self, k: u64) -> (r: Option<usize>)
        requires
            self.wf(),
        ensures
            match r {
                Some(i) => {
                    &&& i < self.rows().len()
                    &&& self.rows()[i as int].0 == k
                    &&& self.spec_get(k) == Some(self.rows()[i as int].1)
                },
                None => self.spec_get(k) is None,
            },
    {
        let mut i: usize = 0;
        while i < self.entries.len()
            invariant
                self.wf(),
                i <= self.entries.len(),
                forall|j: int| 0 <= j < i ==> self.rows()[j].0 != k,
            decreases self.entries.len() - i,
        {
            if self.entries[i].0 == k {
                proof {
                    lemma_seq_get_match(self.rows(), i as int, k);
                }
                return Some(i);
            }
            i += 1;
        }
        proof {
            lemma_seq_get_none(self.rows(), k);
        }
        None
    }
}

impl<V: Copy> Table<V> {
    /// Look up the value stored under `k`.
    pub fn get(&self, k: u64) -> (r: Option<V>)
        requires
            self.wf(),
        ensures
            r == self.spec_get(k),
    {
        match self.find_index(k) {
            Some(i) => Some(self.entries[i].1),
            None => None,
        }
    }

    /// Store `v` under `k`, replacing any previous value. The ensures name
    /// the exact new row sequence, so callers can track derived quantities
    /// (such as a sum over all values) across the write.
    pub fn set(&mut self, k: u64, v: V)
        requires
            old(self).wf(),
        ensures
            final(self).wf(),
            final(self).spec_get(k) == Some(v),
            forall|k2: u64| k2 != k ==> final(self).spec_get(k2) == old(self).spec_get(k2),
            old(self).spec_get(k) is None ==> final(self).rows() == old(self).rows().push((k, v)),
            (old(self).spec_get(k) matches Some(w) ==> exists|i: int|
                {
                    &&& 0 <= i < old(self).rows().len()
                    &&& old(self).rows()[i] == (k, w)
                    &&& final(self).rows() == old(self).rows().update(i, (k, v))
                }),
    {
        let ghost pre = *self;
        match self.find_index(k) {
            Some(i) => {
                self.entries.set(i, (k, v));
                proof {
                    assert(self.rows() =~= pre.rows().update(i as int, (k, v)));
                    assert(distinct_keys(self.rows()));
                    lemma_seq_get_match(self.rows(), i as int, k);
                    assert forall|k2: u64| k2 != k implies self.spec_get(k2) == pre.spec_get(k2) by {
                        lemma_seq_get_update_other(pre.rows(), i as int, (k, v), k2);
                    }
                }
            },
            None => {
                self.entries.push((k, v));
                proof {
                    assert(self.rows() =~= pre.rows().push((k, v)));
                    lemma_seq_get_none(pre.rows(), k);
                    assert forall|i: int, j: int| 0 <= i < j < self.rows().len()
                        implies self.rows()[i].0 != self.rows()[j].0 by {
                        if j < self.rows().len() - 1 {
                            assert(pre.rows()[i].0 != pre.rows()[j].0);
                        }
                    }
                    assert(self.rows().last() == (k, v));
                    assert forall|k2: u64| k2 != k implies self.spec_get(k2) == pre.spec_get(k2) by {
                        lemma_seq_get_push_other(pre.rows(), (k, v), k2);
                    }
                }
            },
        }
    }
}

} // verus!
