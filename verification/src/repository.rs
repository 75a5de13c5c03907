//! The keyed-store abstraction an action handler may lean on.
use vstd::prelude::*;
use crate::entity::{Entity, Identifiable};

verus! {

/// Failure of a `save` on a store that rejects overwrites.
///
/// The stores of this crate overwrite silently (see [`Repository::save`]),
/// so none of them produces this value; it is kept for implementations that
/// choose to reject a duplicated key instead.
#[derive(Debug)]
pub enum SaveError {
    DuplicatedEntity(String),
}

/// A keyed store of entities, modelled as a finite map from keys to
/// entities.
///
/// `save` overwrites an existing entity under the same key. The alternative
/// convention - rejecting the duplicate with [`SaveError::DuplicatedEntity`] -
/// is deliberately not used here: every store of this crate follows the
/// overwriting convention, and the contracts below pin it down.
pub trait Repository<K: Identifiable, E: Entity<K>>: Sized {
    /// The store's contents as a map from key to entity.
    spec fn contents(&self) -> Map<K, E>;

    /// The store's internal invariant; established by its constructor and
    /// preserved by every method.
    spec fn wf(&self) -> bool;

    /// Files `entity` under its own key, replacing whatever was stored
    /// there.
    fn save(&mut self, entity: E)
        requires
            old(self).wf(),
        ensures
            final(self).wf(),
            final(self).contents() == old(self).contents().insert(entity.id_spec(), entity),
    ;

    /// Looks the key up; returns the stored entity exactly when the key is
    /// present.
    fn get_by_id(&self, key: &K) -> (r: Option<&E>)
        requires
            self.wf(),
        ensures
            match r {
                Some(e) => self.contents().contains_key(*key) && *e == self.contents()[*key],
                None => !self.contents().contains_key(*key),
            },
    ;

    /// Hands out every stored entity, in no promised order.
    fn get_all(&self) -> (r: Vec<&E>)
        requires
            self.wf(),
        ensures
            r@.len() == self.contents().len(),
            forall|i: int| 0 <= i < r@.len() ==> self.contents().contains_value(*#[trigger] r@[i]),
            forall|k: K|
                #[trigger] self.contents().contains_key(k) ==> exists|i: int|
                    0 <= i < r@.len() && *#[trigger] r@[i] == self.contents()[k],
    ;

    /// Removes the key's entry; returns the removed entity exactly when the
    /// key was present.
    fn delete(&mut self, key: &K) -> (r: Option<E>)
        requires
            old(self).wf(),
        ensures
            final(self).wf(),
            final(self).contents() == old(self).contents().remove(*key),
            match r {
                Some(e) => old(self).contents().contains_key(*key) && e == old(self).contents()[*key],
                None => !old(self).contents().contains_key(*key),
            },
    ;
}

/// Hands a realm's action handler the stores it works on. The shape of what
/// a factory produces is the handler's business; the realm only carries the
/// factory through to every `handle` call.
pub trait RepositoryFactory {
}

} // verus!
