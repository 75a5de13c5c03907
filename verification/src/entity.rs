//! What it takes to be stored in a repository: a key type and an entity that
//! knows its own key.
use vstd::prelude::*;

verus! {

/// A key under which an entity is stored.
///
/// `same_id` is the executable equality test the stores rely on; it must
/// agree with mathematical equality of the key values.
pub trait Identifiable: Sized + Eq + core::hash::Hash {
    fn same_id(&self, other: &Self) -> (r: bool)
        ensures
            r == (self == other),
    ;
}

impl Identifiable for u64 {
    fn same_id(&self, other: &u64) -> (r: bool)
        ensures
            r == (self == other),
    {
        *self == *other
    }
}

/// An entity owns exactly one key, fixed for the lifetime of the value.
pub trait Entity<K: Identifiable>: Sized {
    /// The key under which this entity is filed.
    spec fn id_spec(&self) -> K;

    /// Returns the entity's key.
    fn id(&self) -> (r: K)
        ensures
            r == self.id_spec(),
    ;
}

} // verus!
