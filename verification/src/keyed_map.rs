use vstd::prelude::*;

verus! {

/// A key that can be compared with, and copied from, another key by its view.
pub trait MapKey: View + Sized {
    fn same_key(&self, other: &Self) -> (b: bool)
        ensures
            b == (self@ == other@),
    ;

    fn copy_key(&self) -> (c: Self)
        ensures
            c@ == self@,
    ;
}

impl MapKey for String {
    fn same_key(&self, other: &Self) -> (b: bool) {
        self.eq(other)
    }

    fn copy_key(&self) -> (c: Self) {
        self.clone()
    }
}

/// Whether some entry of `s` has the key `k`.
pub open spec fn has_key<K: View, V>(s: Seq<(K, V)>, k: K::V) -> bool {
    exists|i: int| 0 <= i < s.len() && #[trigger] s[i].0@ == k
}

/// No two entries of `s` share a key.
pub open spec fn distinct_keys<K: View, V>(s: Seq<(K, V)>) -> bool {
    forall|i: int, j: int|
        0 <= i < s.len() && 0 <= j < s.len() && i != j ==> #[trigger] s[i].0@ != #[trigger] s[j].0@
}

/// The value stored under `k` in `s`.
pub open spec fn value_of<K: View, V>(s: Seq<(K, V)>, k: K::V) -> V {
    s[choose|i: int| 0 <= i < s.len() && #[trigger] s[i].0@ == k].1
}

/// The map that the entries of `s` spell out.
pub open spec fn entries_map<K: View, V>(s: Seq<(K, V)>) -> Map<K::V, V> {
    Map::new(|k: K::V| has_key(s, k), |k: K::V| value_of(s, k))
}

/// Under distinct keys, the entry at `i` is the one the map reads for its key.
pub proof fn lemma_entry_is_mapped<K: View, V>(s: Seq<(K, V)>, i: int)
    requires
        distinct_keys(s),
        0 <= i < s.len(),
    ensures
        entries_map(s).contains_key(s[i].0@),
        entries_map(s)[s[i].0@] == s[i].1,
{
    assert(has_key(s, s[i].0@));
    let j = choose|j: int| 0 <= j < s.len() && #[trigger] s[j].0@ == s[i].0@;
    assert(j == i);
}

/// Pushing an entry with a fresh key inserts it into the map.
pub proof fn lemma_push_fresh<K: View, V>(s: Seq<(K, V)>, key: K, value: V)
    requires
        distinct_keys(s),
        !has_key(s, key@),
    ensures
        distinct_keys(s.push((key, value))),
        entries_map(s.push((key, value))) =~= entries_map(s).insert(key@, value),
{
    let t = s.push((key, value));
    assert forall|i: int, j: int|
        0 <= i < t.len() && 0 <= j < t.len() && i != j implies #[trigger] t[i].0@ != #[trigger] t[j].0@ by {
        if i < s.len() && j < s.len() {
            assert(s[i].0@ != s[j].0@);
        } else if i < s.len() {
            assert(s[i].0@ != key@);
        } else {
            assert(s[j].0@ != key@);
        }
    }
    assert forall|k: K::V| #[trigger] has_key(t, k) == (has_key(s, k) || k == key@) by {
        if has_key(s, k) {
            let i = choose|i: int| 0 <= i < s.len() && #[trigger] s[i].0@ == k;
            assert(t[i].0@ == k);
        }
        if k == key@ {
            assert(t[s.len() as int].0@ == k);
        }
        if has_key(t, k) && k != key@ {
            let i = choose|i: int| 0 <= i < t.len() && #[trigger] t[i].0@ == k;
            assert(s[i].0@ == k);
        }
    }
    assert forall|k: K::V| has_key(t, k) implies #[trigger] value_of(t, k) == entries_map(s).insert(
        key@,
        value,
    )[k] by {
        let i = choose|i: int| 0 <= i < t.len() && #[trigger] t[i].0@ == k;
        lemma_entry_is_mapped(t, i);
        if i < s.len() {
            lemma_entry_is_mapped(s, i);
        }
    }
}

/// Taking out the entry at `i` (the last entry moved into its place) removes its key.
pub proof fn lemma_swap_remove<K: View, V>(s: Seq<(K, V)>, i: int)
    requires
        distinct_keys(s),
        0 <= i < s.len(),
    ensures
        distinct_keys(s.update(i, s.last()).drop_last()),
        entries_map(s.update(i, s.last()).drop_last()) =~= entries_map(s).remove(s[i].0@),
{
    let n = s.len() - 1;
    let t = s.update(i, s.last()).drop_last();
    // t[j] is s[j] for j != i, and s[n] at i
    assert forall|j: int| 0 <= j < t.len() implies #[trigger] t[j] == (if j == i { s[n] } else { s[j] }) by {}
    assert forall|a: int, b: int|
        0 <= a < t.len() && 0 <= b < t.len() && a != b implies #[trigger] t[a].0@ != #[trigger] t[b].0@ by {
        let sa = if a == i { n } else { a };
        let sb = if b == i { n } else { b };
        assert(t[a] == s[sa]);
        assert(t[b] == s[sb]);
    }
    let k0 = s[i].0@;
    assert forall|k: K::V| #[trigger] has_key(t, k) == (has_key(s, k) && k != k0) by {
        if has_key(t, k) {
            let a = choose|a: int| 0 <= a < t.len() && #[trigger] t[a].0@ == k;
            let sa = if a == i { n } else { a };
            assert(t[a] == s[sa]);
            assert(s[sa].0@ == k);
            assert(sa != i);
        }
        if has_key(s, k) && k != k0 {
            let a = choose|a: int| 0 <= a < s.len() && #[trigger] s[a].0@ == k;
            assert(a != i);
            if a == n {
                assert(t[i] == s[n]);
                assert(t[i].0@ == k);
            } else {
                assert(t[a] == s[a]);
                assert(t[a].0@ == k);
            }
        }
    }
    assert forall|k: K::V| has_key(t, k) implies #[trigger] value_of(t, k) == entries_map(s)[k] by {
        let a = choose|a: int| 0 <= a < t.len() && #[trigger] t[a].0@ == k;
        let sa = if a == i { n } else { a };
        assert(t[a] == s[sa]);
        lemma_entry_is_mapped(t, a);
        lemma_entry_is_mapped(s, sa);
    }
}

/// A finite map held as a list of entries, no two of which share a key.
///
/// Lookups scan the list. vstd's contracts for `HashMap` and `BTreeMap` hold only
/// for key types with a known hash or order model, which `String` lacks, so
/// with `String` keys not even the length after one insert follows from them.
pub struct KeyedMap<K: MapKey, V> {
    entries: Vec<(K, V)>,
}

impl<K: MapKey, V> View for KeyedMap<K, V> {
    type V = Map<K::V, V>;

    closed spec fn view(&self) -> Map<K::V, V> {
        entries_map(self.entries@)
    }
}

impl<K: MapKey, V> KeyedMap<K, V> {
    /// Well-formedness: no two entries share a key.
    #[verifier::type_invariant]
    spec fn wf(&self) -> bool {
        distinct_keys(self.entries@)
    }

    pub fn new() -> (m: Self)
        ensures
            m@ == Map::<K::V, V>::empty(),
    {
        let m = KeyedMap { entries: Vec::new() };
        assert(m@ =~= Map::<K::V, V>::empty());
        m
    }

    /// Position of the entry with the given key, if any.
    fn position(&self, key: &K) -> (r: Option<usize>)
        ensures
            distinct_keys(self.entries@),
            match r {
                Some(i) => i < self.entries@.len() && self.entries@[i as int].0@ == key@,
                None => !has_key(self.entries@, key@),
            },
    {
        proof {
            use_type_invariant(self);
        }
        let mut i: usize = 0;
        while i < self.entries.len()
            invariant
                i <= self.entries@.len(),
                distinct_keys(self.entries@),
                forall|j: int| 0 <= j < i ==> #[trigger] self.entries@[j].0@ != key@,
            decreases self.entries@.len() - i,
        {
            if self.entries[i].0.same_key(key) {
                return Some(i);
            }
            i = i + 1;
        }
        None
    }

    pub fn contains_key(&self, key: &K) -> (b: bool)
        ensures
            b == self@.contains_key(key@),
    {
        self.position(key).is_some()
    }

    pub fn get(&self, key: &K) -> (r: Option<&V>)
        ensures
            match r {
                Some(v) => self@.contains_key(key@) && *v == self@[key@],
                None => !self@.contains_key(key@),
            },
    {
        match self.position(key) {
            Some(i) => {
                proof {
                    lemma_entry_is_mapped(self.entries@, i as int);
                }
                Some(&self.entries[i].1)
            },
            None => None,
        }
    }

    /// Inserts `value` under `key`, handing back the value that was there before.
    pub fn insert(&mut self, key: K, value: V) -> (r: Option<V>)
        ensures
            final(self)@ == old(self)@.insert(key@, value),
            match r {
                Some(v) => old(self)@.contains_key(key@) && v == old(self)@[key@],
                None => !old(self)@.contains_key(key@),
            },
    {
        let pos = self.position(&key);
        let ghost s = self.entries@;
        let mut entries: Vec<(K, V)> = Vec::new();
        std::mem::swap(&mut entries, &mut self.entries);
        let r = match pos {
            Some(i) => {
                proof {
                    lemma_entry_is_mapped(s, i as int);
                    lemma_swap_remove(s, i as int);
                }
                let old_entry = entries.swap_remove(i);
                proof {
                    assert(entries@ =~= s.update(i as int, s.last()).drop_last());
                    assert(!has_key(entries@, key@)) by {
                        assert(!entries_map(entries@).contains_key(key@));
                    }
                    lemma_push_fresh(entries@, key, value);
                    assert(entries_map(s).remove(key@).insert(key@, value) =~= entries_map(s).insert(
                        key@,
                        value,
                    ));
                }
                entries.push((key, value));
                Some(old_entry.1)
            },
            None => {
                proof {
                    lemma_push_fresh(entries@, key, value);
                }
                entries.push((key, value));
                None
            },
        };
        self.entries = entries;
        r
    }

    /// Removes the entry with the given key, handing back its value.
    pub fn remove(&mut self, key: &K) -> (r: Option<V>)
        ensures
            final(self)@ == old(self)@.remove(key@),
            match r {
                Some(v) => old(self)@.contains_key(key@) && v == old(self)@[key@],
                None => !old(self)@.contains_key(key@),
            },
    {
        let pos = self.position(key);
        let ghost s = self.entries@;
        let mut entries: Vec<(K, V)> = Vec::new();
        std::mem::swap(&mut entries, &mut self.entries);
        let r = match pos {
            Some(i) => {
                proof {
                    lemma_entry_is_mapped(s, i as int);
                    lemma_swap_remove(s, i as int);
                }
                let old_entry = entries.swap_remove(i);
                proof {
                    assert(entries@ =~= s.update(i as int, s.last()).drop_last());
                }
                Some(old_entry.1)
            },
            None => {
                proof {
                    assert(entries_map(s) =~= entries_map(s).remove(key@));
                }
                None
            },
        };
        self.entries = entries;
        r
    }

    /// The entries, each key once, in storage order.
    pub fn entries(&self) -> (r: &Vec<(K, V)>)
        ensures
            distinct_keys(r@),
            entries_map(r@) == self@,
    {
        proof {
            use_type_invariant(self);
        }
        &self.entries
    }
}

} // verus!
