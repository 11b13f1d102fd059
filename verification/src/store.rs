//! An in-memory row store with the same observable behaviour the bench
//! expects of the cluster table: an upsert keyed by `pk`, and a point
//! lookup in which the latest write of a key wins. Runs against it need no
//! oracle, so executor behaviour can be exercised without a cluster.

use vstd::prelude::*;
use crate::row::Row;

verus! {

/// The map a write log denotes: later writes of a key override earlier
/// ones.
pub open spec fn map_of(s: Seq<Row>) -> Map<i64, (i64, i64)>
    decreases s.len(),
{
    if s.len() == 0 {
        Map::empty()
    } else {
        map_of(s.drop_last()).insert(s.last().pk, (s.last().v1, s.last().v2))
    }
}

/// If `s[i]` is the latest entry for `pk`, the denoted map holds its values.
proof fn lemma_map_of_latest(s: Seq<Row>, i: int, pk: i64)
    requires
        0 <= i < s.len(),
        s[i].pk == pk,
        forall|j: int| i < j < s.len() ==> s[j].pk != pk,
    ensures
        map_of(s).contains_key(pk),
        map_of(s)[pk] == (s[i].v1, s[i].v2),
    decreases s.len(),
{
    if i == s.len() - 1 {
    } else {
        lemma_map_of_latest(s.drop_last(), i, pk);
    }
}

/// A key no entry carries is absent from the denoted map.
proof fn lemma_map_of_absent(s: Seq<Row>, pk: i64)
    requires
        forall|j: int| 0 <= j < s.len() ==> s[j].pk != pk,
    ensures
        !map_of(s).contains_key(pk),
    decreases s.len(),
{
    if s.len() > 0 {
        lemma_map_of_absent(s.drop_last(), pk);
    }
}

/// The in-memory store: a write log, read through `map_of`.
pub struct MockStore {
    rows: Vec<Row>,
}

impl MockStore {
    /// The table the store holds, as a map from key to column values.
    pub closed spec fn view(&self) -> Map<i64, (i64, i64)> {
        map_of(self.rows@)
    }

    /// A fresh, empty store.
    pub fn new() -> (r: MockStore)
        ensures
            r@ == Map::<i64, (i64, i64)>::empty(),
    {
        MockStore { rows: Vec::new() }
    }

    /// Writes a row; a later write of the same key wins.
    pub fn upsert(&mut self, row: Row)
        ensures
            final(self)@ == old(self)@.insert(row.pk, (row.v1, row.v2)),
    {
        self.rows.push(row);
        proof {
            assert(self.rows@.drop_last() == old(self).rows@);
        }
    }

    /// Point lookup by key: the values of the latest write of `pk`, or
    /// nothing if `pk` was never written.
    pub fn get(&self, pk: i64) -> (r: Option<Row>)
        ensures
            match r {
                Some(row) => self@.contains_key(pk) && row.pk == pk && self@[pk] == (
                    row.v1,
                    row.v2,
                ),
                None => !self@.contains_key(pk),
            },
    {
        let mut i = self.rows.len();
        while i > 0
            invariant
                i <= self.rows.len(),
                forall|j: int| i <= j < self.rows@.len() ==> self.rows@[j].pk != pk,
            decreases i,
        {
            i = i - 1;
            if self.rows[i].pk == pk {
                let row = self.rows[i];
                proof {
                    lemma_map_of_latest(self.rows@, i as int, pk);
                }
                return Some(row);
            }
        }
        proof {
            lemma_map_of_absent(self.rows@, pk);
        }
        None
    }
}

} // verus!
