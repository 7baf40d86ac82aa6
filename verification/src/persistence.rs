use vstd::prelude::*;

pub mod crud_error;
pub mod simple_file_db;

verus! {

/// A store of values by key, with create, read, update and delete.
///
/// The contract fixes what each operation does to the stored contents and
/// which of the store's two errors it reports.
pub trait CRUD<K: View, V, E>: Sized {
    /// What the store holds, by the view of each key.
    spec fn contents(&self) -> Map<K::V, V>;

    /// The error reported for a key that the store does not hold.
    spec fn not_found_error() -> E;

    /// The error reported by `create` for a key that the store already held.
    spec fn already_exists_error() -> E;

    /// Stores `value` under `key`; reports `already_exists_error` when the key was
    /// held before, in which case the new value has replaced the old one.
    fn create(&mut self, key: K, value: V) -> (r: Result<(), E>)
        ensures
            final(self).contents() == old(self).contents().insert(key@, value),
            r == (if old(self).contents().contains_key(key@) {
                Err(Self::already_exists_error())
            } else {
                Ok(())
            }),
    ;

    /// The value stored under `key`.
    fn read(&self, key: &K) -> (r: Result<&V, E>)
        ensures
            match r {
                Ok(v) => self.contents().contains_key(key@) && *v == self.contents()[key@],
                Err(e) => !self.contents().contains_key(key@) && e == Self::not_found_error(),
            },
    ;

    /// Replaces the value under a key that the store holds.
    fn update(&mut self, key: K, value: V) -> (r: Result<(), E>)
        ensures
            if old(self).contents().contains_key(key@) {
                &&& final(self).contents() == old(self).contents().insert(key@, value)
                &&& r == Ok::<(), E>(())
            } else {
                &&& final(self).contents() == old(self).contents()
                &&& r == Err::<(), E>(Self::not_found_error())
            },
    ;

    /// Removes a key that the store holds, handing back its value.
    fn delete(&mut self, key: &K) -> (r: Result<V, E>)
        ensures
            if old(self).contents().contains_key(key@) {
                &&& final(self).contents() == old(self).contents().remove(key@)
                &&& r == Ok::<V, E>(old(self).contents()[key@])
            } else {
                &&& final(self).contents() == old(self).contents()
                &&& r == Err::<V, E>(Self::not_found_error())
            },
    ;
}

/// A read after a create of the same key gives back the created value, whether or
/// not the key was held before.
pub proof fn law_read_after_create<K: View, V, E, D: CRUD<K, V, E>>(
    before: D,
    after: D,
    key: K,
    value: V,
)
    requires
        after.contents() == before.contents().insert(key@, value),
    ensures
        after.contents().contains_key(key@),
        after.contents()[key@] == value,
{
}

/// Creating a key that was not held and then deleting it gives back the created
/// value and leaves the store as it was.
pub proof fn law_delete_undoes_create<K: View, V, E, D: CRUD<K, V, E>>(
    before: D,
    created: D,
    deleted: D,
    key: K,
    value: V,
)
    requires
        !before.contents().contains_key(key@),
        created.contents() == before.contents().insert(key@, value),
        deleted.contents() == created.contents().remove(key@),
    ensures
        created.contents().contains_key(key@),
        created.contents()[key@] == value,
        deleted.contents() == before.contents(),
{
    assert(deleted.contents() =~= before.contents());
}

/// After a delete, the key is not held: a read reports `not_found_error`.
pub proof fn law_read_after_delete<K: View, V, E, D: CRUD<K, V, E>>(before: D, after: D, key: K)
    requires
        after.contents() == before.contents().remove(key@),
    ensures
        !after.contents().contains_key(key@),
{
}

/// An update of a held key has the effect of a delete followed by a create.
pub proof fn law_update_is_delete_then_create<K: View, V, E, D: CRUD<K, V, E>>(
    before: D,
    key: K,
    value: V,
)
    requires
        before.contents().contains_key(key@),
    ensures
        before.contents().remove(key@).insert(key@, value) == before.contents().insert(
            key@,
            value,
        ),
{
    assert(before.contents().remove(key@).insert(key@, value) =~= before.contents().insert(
        key@,
        value,
    ));
}

/// Create, update and delete of one key leave every other key as it was.
pub proof fn law_other_keys_unchanged<K: View, V, E, D: CRUD<K, V, E>>(
    before: D,
    key: K,
    value: V,
    other: K::V,
)
    requires
        other != key@,
    ensures
        before.contents().insert(key@, value).contains_key(other) == before.contents().contains_key(
            other,
        ),
        before.contents().insert(key@, value)[other] == before.contents()[other],
        before.contents().remove(key@).contains_key(other) == before.contents().contains_key(
            other,
        ),
        before.contents().remove(key@)[other] == before.contents()[other],
{
}

} // verus!
