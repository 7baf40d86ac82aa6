use vstd::prelude::*;

use crate::keyed_map::{distinct_keys, entries_map, lemma_push_fresh, KeyedMap, MapKey};
use crate::persistence::crud_error::CRUDError;
use crate::persistence::CRUD;

verus! {

/// The map reached from `m` by inserting the pairs of `s` in order, a later pair
/// replacing an earlier one with the same key.
pub open spec fn insert_all<K: View, V>(m: Map<K::V, V>, s: Seq<(K, V)>) -> Map<K::V, V>
    decreases s.len(),
{
    if s.len() == 0 {
        m
    } else {
        insert_all(m, s.drop_last()).insert(s.last().0@, s.last().1)
    }
}

/// Whether `j` is the last position of `s` that holds the key `k`.
pub open spec fn last_with_key<K: View, V>(s: Seq<(K, V)>, k: K::V, j: int) -> bool {
    &&& 0 <= j < s.len()
    &&& s[j].0@ == k
    &&& forall|i: int| j < i < s.len() ==> #[trigger] s[i].0@ != k
}

/// Loading pairs leaves, for each key, the value of the last pair with that key;
/// keys of no pair keep what the store held before.
pub proof fn law_load_keeps_last_value<K: View, V>(m: Map<K::V, V>, s: Seq<(K, V)>, k: K::V)
    ensures
        (exists|i: int| 0 <= i < s.len() && #[trigger] s[i].0@ == k) ==> exists|j: int|
            #[trigger] last_with_key(s, k, j) && insert_all(m, s).contains_key(k) && insert_all(
                m,
                s,
            )[k] == s[j].1,
        (forall|i: int| 0 <= i < s.len() ==> #[trigger] s[i].0@ != k) ==> (insert_all(
            m,
            s,
        ).contains_key(k) == m.contains_key(k) && insert_all(m, s)[k] == m[k]),
    decreases s.len(),
{
    if s.len() > 0 {
        let t = s.drop_last();
        let last = s.len() - 1;
        law_load_keeps_last_value(m, t, k);
        assert forall|i: int| 0 <= i < t.len() implies #[trigger] t[i] == s[i] by {}
        if s[last].0@ == k {
            assert(last_with_key(s, k, last));
        } else {
            if exists|i: int| 0 <= i < s.len() && #[trigger] s[i].0@ == k {
                let w = choose|i: int| 0 <= i < s.len() && #[trigger] s[i].0@ == k;
                assert(t[w].0@ == k);
                let j = choose|j: int|
                    #[trigger] last_with_key(t, k, j) && insert_all(m, t).contains_key(k)
                        && insert_all(m, t)[k] == t[j].1;
                assert(last_with_key(s, k, j)) by {
                    assert forall|i: int| j < i < s.len() implies #[trigger] s[i].0@ != k by {
                        if i < last {
                            assert(t[i].0@ != k);
                        }
                    }
                }
            } else {
                assert forall|i: int| 0 <= i < t.len() implies #[trigger] t[i].0@ != k by {
                    assert(s[i].0@ != k);
                }
            }
        }
    }
}

/// Saving and loading back: the pairs that `entries` hands out, loaded into an
/// empty store, give back the contents they were taken from.
pub proof fn law_saved_entries_load_back<K: View, V>(s: Seq<(K, V)>)
    requires
        distinct_keys(s),
    ensures
        insert_all(Map::<K::V, V>::empty(), s) == entries_map(s),
    decreases s.len(),
{
    if s.len() > 0 {
        let t = s.drop_last();
        assert(distinct_keys(t)) by {
            assert forall|i: int, j: int|
                0 <= i < t.len() && 0 <= j < t.len() && i != j implies #[trigger] t[i].0@
                != #[trigger] t[j].0@ by {
                assert(s[i].0@ != s[j].0@);
            }
        }
        law_saved_entries_load_back(t);
        assert(!crate::keyed_map::has_key(t, s.last().0@)) by {
            if crate::keyed_map::has_key(t, s.last().0@) {
                let i = choose|i: int| 0 <= i < t.len() && #[trigger] t[i].0@ == s.last().0@;
                assert(s[i].0@ != s[s.len() - 1].0@);
            }
        }
        lemma_push_fresh(t, s.last().0, s.last().1);
        assert(t.push((s.last().0, s.last().1)) =~= s);
    } else {
        assert(entries_map(s) =~= Map::<K::V, V>::empty());
    }
}

/// A key-value store kept in memory, tied to the file it is loaded from and saved to.
pub struct SimpleFileDB<K: MapKey, V> {
    file_path: String,
    data_map: KeyedMap<K, V>,
}

impl<K: MapKey, V> SimpleFileDB<K, V> {
    /// The stored contents.
    pub closed spec fn data(&self) -> Map<K::V, V> {
        self.data_map@
    }

    /// The path of the file that backs the store.
    pub closed spec fn path(&self) -> Seq<char> {
        self.file_path@
    }

    /// An empty store backed by the file at `file_path`.
    pub fn new(file_path: String) -> (db: Self)
        ensures
            db.data() == Map::<K::V, V>::empty(),
            db.path() == file_path@,
    {
        Self { file_path, data_map: KeyedMap::new() }
    }

    /// The path of the file that backs the store.
    pub fn file_path(&self) -> (p: &String)
        ensures
            p@ == self.path(),
    {
        &self.file_path
    }

    /// Adds the pairs read from the backing file, in the order they were read.
    pub fn load_entries(self, entries: Vec<(K, V)>) -> (db: Self)
        ensures
            db.data() == insert_all(self.data(), entries@),
            db.path() == self.path(),
    {
        let ghost start = self.data();
        let ghost path = self.path();
        let mut db = self;
        let ghost all = entries@;
        let total: usize = entries.len();
        let mut done: usize = 0;
        let mut rest = entries;
        // Reverse the pairs, so that popping hands them out in their original order.
        let mut reversed: Vec<(K, V)> = Vec::new();
        while rest.len() > 0
            invariant
                reversed@.len() + rest@.len() == all.len(),
                forall|i: int| 0 <= i < rest@.len() ==> #[trigger] rest@[i] == all[i],
                forall|i: int|
                    0 <= i < reversed@.len() ==> #[trigger] reversed@[i] == all[all.len() - 1 - i],
            decreases rest@.len(),
        {
            let pair = rest.pop().unwrap();
            reversed.push(pair);
        }
        while reversed.len() > 0
            invariant
                done + reversed@.len() == all.len(),
                all.len() == total,
                forall|i: int|
                    0 <= i < reversed@.len() ==> #[trigger] reversed@[i] == all[all.len() - 1 - i],
                db.data() == insert_all(start, all.take(done as int)),
                db.path() == path,
            decreases reversed@.len(),
        {
            let pair = reversed.pop().unwrap();
            proof {
                assert(pair == all[done as int]);
                assert(all.take(done as int + 1).drop_last() =~= all.take(done as int));
            }
            db.data_map.insert(pair.0, pair.1);
            done = done + 1;
        }
        proof {
            assert(all.take(done as int) =~= all);
        }
        db
    }

    /// The stored pairs, each key once, for writing to the backing file.
    pub fn entries(&self) -> (r: &Vec<(K, V)>)
        ensures
            distinct_keys(r@),
            entries_map(r@) == self.data(),
    {
        self.data_map.entries()
    }
}

impl<K: MapKey, V> CRUD<K, V, CRUDError> for SimpleFileDB<K, V> {
    open spec fn contents(&self) -> Map<K::V, V> {
        self.data()
    }

    open spec fn not_found_error() -> CRUDError {
        CRUDError::NotFound
    }

    open spec fn already_exists_error() -> CRUDError {
        CRUDError::AlreadyExists
    }

    fn create(&mut self, key: K, value: V) -> (r: Result<(), CRUDError>)
        ensures
            final(self).path() == old(self).path(),
    {
        match self.data_map.insert(key, value) {
            None => Ok(()),
            Some(_) => Err(CRUDError::AlreadyExists),
        }
    }

    fn read(&self, key: &K) -> (r: Result<&V, CRUDError>) {
        match self.data_map.get(key) {
            None => Err(CRUDError::NotFound),
            Some(value) => Ok(value),
        }
    }

    fn update(&mut self, key: K, value: V) -> (r: Result<(), CRUDError>)
        ensures
            final(self).path() == old(self).path(),
    {
        match self.delete(&key) {
            Ok(_) => self.create(key, value),
            Err(err) => Err(err),
        }
    }

    fn delete(&mut self, key: &K) -> (r: Result<V, CRUDError>)
        ensures
            final(self).path() == old(self).path(),
    {
        match self.data_map.remove(key) {
            None => Err(CRUDError::NotFound),
            Some(v) => Ok(v),
        }
    }
}

} // verus!
