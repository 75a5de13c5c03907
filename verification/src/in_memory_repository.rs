//! A keyed store backed by a vector of `(key, entity)` pairs with pairwise
//! distinct keys; its contents are the finite map the pairs spell out.
use vstd::prelude::*;
use vstd::assert_seqs_equal;
use crate::entity::{Entity, Identifiable};
use crate::repository::Repository;

verus! {

/// No two pairs carry the same key.
pub open spec fn distinct_keys<K, E>(s: Seq<(K, E)>) -> bool {
    forall|i: int, j: int| 0 <= i < j < s.len() ==> s[i].0 != s[j].0
}

/// The map a sequence of pairs spells out; on a duplicated key the later
/// pair wins.
pub open spec fn map_of<K, E>(s: Seq<(K, E)>) -> Map<K, E>
    decreases s.len(),
{
    if s.len() == 0 {
        Map::empty()
    } else {
        map_of(s.drop_last()).insert(s.last().0, s.last().1)
    }
}

proof fn lemma_distinct_drop_last<K, E>(s: Seq<(K, E)>)
    requires
        distinct_keys(s),
        s.len() > 0,
    ensures
        distinct_keys(s.drop_last()),
{
    assert forall|i: int, j: int|
        0 <= i < j < s.drop_last().len() implies s.drop_last()[i].0 != s.drop_last()[j].0 by {
        assert(s.drop_last()[i] == s[i]);
        assert(s.drop_last()[j] == s[j]);
    }
}

/// A key is in the map exactly when some pair carries it.
proof fn lemma_map_of_key_index<K, E>(s: Seq<(K, E)>, k: K)
    ensures
        map_of(s).contains_key(k) <==> (exists|i: int| 0 <= i < s.len() && s[i].0 == k),
    decreases s.len(),
{
    if s.len() > 0 {
        let dl = s.drop_last();
        lemma_map_of_key_index(dl, k);
        if map_of(s).contains_key(k) {
            if s.last().0 == k {
                assert(s[s.len() - 1].0 == k);
            } else {
                let i = choose|i: int| 0 <= i < dl.len() && dl[i].0 == k;
                assert(s[i].0 == k);
            }
        }
        if exists|i: int| 0 <= i < s.len() && s[i].0 == k {
            let i = choose|i: int| 0 <= i < s.len() && s[i].0 == k;
            if i < s.len() - 1 {
                assert(dl[i].0 == k);
                assert(map_of(dl).contains_key(k));
            }
        }
    }
}

/// Under distinct keys, the pair at any index is what the map stores.
proof fn lemma_map_of_get<K, E>(s: Seq<(K, E)>, i: int)
    requires
        distinct_keys(s),
        0 <= i < s.len(),
    ensures
        map_of(s).contains_key(s[i].0),
        map_of(s)[s[i].0] == s[i].1,
    decreases s.len(),
{
    if i < s.len() - 1 {
        let dl = s.drop_last();
        lemma_distinct_drop_last(s);
        lemma_map_of_get(dl, i);
        assert(s[i].0 != s[s.len() - 1].0);
    }
}

/// Under distinct keys the map has one entry per pair.
proof fn lemma_map_of_len<K, E>(s: Seq<(K, E)>)
    requires
        distinct_keys(s),
    ensures
        map_of(s).dom().finite(),
        map_of(s).len() == s.len(),
    decreases s.len(),
{
    if s.len() > 0 {
        let dl = s.drop_last();
        lemma_distinct_drop_last(s);
        lemma_map_of_len(dl);
        lemma_map_of_key_index(dl, s.last().0);
        assert forall|i: int| 0 <= i < dl.len() implies dl[i].0 != s.last().0 by {
            assert(dl[i] == s[i]);
            assert(s[i].0 != s[s.len() - 1].0);
        }
        assert(!map_of(dl).contains_key(s.last().0));
        assert(map_of(s).dom() =~= map_of(dl).dom().insert(s.last().0));
    }
}

/// Removing the pair at an index removes exactly its key from the map.
proof fn lemma_map_of_remove<K, E>(s: Seq<(K, E)>, i: int)
    requires
        distinct_keys(s),
        0 <= i < s.len(),
    ensures
        distinct_keys(s.remove(i)),
        map_of(s.remove(i)) == map_of(s).remove(s[i].0),
    decreases s.len(),
{
    assert forall|a: int, b: int|
        0 <= a < b < s.remove(i).len() implies s.remove(i)[a].0 != s.remove(i)[b].0 by {
        assert(s.remove(i)[a] == (if a < i { s[a] } else { s[a + 1] }));
        assert(s.remove(i)[b] == (if b < i { s[b] } else { s[b + 1] }));
    }
    if i == s.len() - 1 {
        let dl = s.drop_last();
        lemma_distinct_drop_last(s);
        assert_seqs_equal!(s.remove(i) == dl);
        lemma_map_of_key_index(dl, s[i].0);
        assert forall|a: int| 0 <= a < dl.len() implies dl[a].0 != s[i].0 by {
            assert(dl[a] == s[a]);
        }
        assert(!map_of(dl).contains_key(s[i].0));
        assert(map_of(dl) =~= map_of(s).remove(s[i].0));
    } else {
        let dl = s.drop_last();
        lemma_distinct_drop_last(s);
        lemma_map_of_remove(dl, i);
        assert_seqs_equal!(s.remove(i).drop_last() == dl.remove(i));
        assert(s.remove(i).last() == s.last());
        assert(s.remove(i).len() > 0);
        assert(map_of(s.remove(i)) == map_of(dl.remove(i)).insert(s.last().0, s.last().1));
        assert(s[i].0 != s.last().0);
        assert(map_of(dl).remove(s[i].0).insert(s.last().0, s.last().1)
            =~= map_of(dl).insert(s.last().0, s.last().1).remove(s[i].0));
    }
}

/// The in-memory store: a vector of pairs whose keys stay pairwise
/// distinct.
pub struct InMemoryRepository<K: Identifiable, E: Entity<K>> {
    entities: Vec<(K, E)>,
}

impl<K: Identifiable, E: Entity<K>> InMemoryRepository<K, E> {
    /// An empty store.
    pub fn new() -> (r: Self)
        ensures
            r.wf(),
            r.contents() == Map::<K, E>::empty(),
    {
        InMemoryRepository { entities: Vec::new() }
    }

    /// The index of the pair carrying `key`, if any.
    fn find_index(&self, key: &K) -> (r: Option<usize>)
        ensures
            match r {
                Some(i) => i < self.entities@.len() && self.entities@[i as int].0 == *key,
                None => forall|i: int| 0 <= i < self.entities@.len()
                    ==> (#[trigger] self.entities@[i]).0 != *key,
            },
    {
        let n = self.entities.len();
        let mut j: usize = 0;
        while j < n
            invariant
                j <= n,
                n == self.entities@.len(),
                forall|i: int| 0 <= i < j ==> (#[trigger] self.entities@[i]).0 != *key,
            decreases n - j,
        {
            let hit = self.entities[j].0.same_id(key);
            if hit {
                return Some(j);
            }
            j += 1;
        }
        None
    }
}

impl<K: Identifiable, E: Entity<K>> Repository<K, E> for InMemoryRepository<K, E> {
    closed spec fn contents(&self) -> Map<K, E> {
        map_of(self.entities@)
    }

    closed spec fn wf(&self) -> bool {
        distinct_keys(self.entities@)
    }

    fn save(&mut self, entity: E) {
        let key = entity.id();
        let _replaced = self.delete(&key);
        let ghost mid = self.entities@;
        let ghost pre = old(self).entities@;
        proof {
            lemma_map_of_key_index(mid, key);
        }
        self.entities.push((key, entity));
        proof {
            assert forall|a: int, b: int|
                0 <= a < b < self.entities@.len()
                implies self.entities@[a].0 != self.entities@[b].0 by {
                if b < mid.len() {
                    assert(self.entities@[a] == mid[a]);
                    assert(self.entities@[b] == mid[b]);
                } else {
                    assert(self.entities@[b] == (key, entity));
                    assert(self.entities@[a] == mid[a]);
                    assert(!map_of(mid).contains_key(key));
                }
            }
            assert_seqs_equal!(self.entities@.drop_last() == mid);
            assert(self.entities@.last() == (key, entity));
            assert(map_of(self.entities@) == map_of(mid).insert(key, entity));
            assert(map_of(mid) == map_of(pre).remove(key));
            assert(map_of(pre).remove(key).insert(key, entity)
                =~= map_of(pre).insert(key, entity));
        }
    }

    fn get_by_id(&self, key: &K) -> (r: Option<&E>) {
        match self.find_index(key) {
            Some(i) => {
                proof {
                    lemma_map_of_get(self.entities@, i as int);
                }
                Some(&self.entities[i].1)
            },
            None => {
                proof {
                    lemma_map_of_key_index(self.entities@, *key);
                }
                None
            },
        }
    }

    fn get_all(&self) -> (r: Vec<&E>) {
        let mut out: Vec<&E> = Vec::new();
        let n = self.entities.len();
        let mut j: usize = 0;
        while j < n
            invariant
                j <= n,
                n == self.entities@.len(),
                out@.len() == j,
                forall|i: int| 0 <= i < j ==> *#[trigger] out@[i] == self.entities@[i].1,
            decreases n - j,
        {
            out.push(&self.entities[j].1);
            j += 1;
        }
        proof {
            let s = self.entities@;
            lemma_map_of_len(s);
            assert forall|i: int| 0 <= i < out@.len()
                implies self.contents().contains_value(*#[trigger] out@[i]) by {
                lemma_map_of_get(s, i);
                assert(self.contents().contains_key(s[i].0));
                assert(self.contents()[s[i].0] == *out@[i]);
            }
            assert forall|k: K| #[trigger] self.contents().contains_key(k)
                implies exists|i: int| 0 <= i < out@.len() && *#[trigger] out@[i] == self.contents()[k] by {
                lemma_map_of_key_index(s, k);
                let i = choose|i: int| 0 <= i < s.len() && s[i].0 == k;
                lemma_map_of_get(s, i);
                assert(*out@[i] == self.contents()[k]);
            }
        }
        out
    }

    fn delete(&mut self, key: &K) -> (r: Option<E>) {
        match self.find_index(key) {
            Some(i) => {
                proof {
                    lemma_map_of_get(self.entities@, i as int);
                    lemma_map_of_remove(self.entities@, i as int);
                }
                let p = self.entities.remove(i);
                Some(p.1)
            },
            None => {
                proof {
                    lemma_map_of_key_index(self.entities@, *key);
                    assert(map_of(self.entities@) =~= map_of(self.entities@).remove(*key));
                }
                None
            },
        }
    }
}

} // verus!
