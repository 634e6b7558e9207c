//! The inventory service: registers parts and looks them up.
use vstd::prelude::*;

use crate::identity::{uuid_version, EntityId, PartId};
use crate::name::Name;
use crate::part::Part;
use crate::store::{well_formed, InMemoryStore, StorageError, StoreModel};

verus! {

#[derive(Debug)]
pub enum InventoryError {
    /// The requested part is not stored.
    MissingPart,
    /// The storage failed; the cause is kept.
    GeneralError(StorageError),
}

/// The part stored under `id` in `m`, if any.
pub open spec fn part_view_of(m: StoreModel, id: PartId) -> Option<Part> {
    if m.parts.contains_key(id.value) {
        Some(m.parts[id.value])
    } else {
        None
    }
}

/// `after` is `before` with a new part `id` named `name`, and nothing else changed.
pub open spec fn part_registered(before: StoreModel, after: StoreModel, id: PartId, name: Name) -> bool {
    &&& !before.parts.contains_key(id.value)
    &&& after == (StoreModel { parts: before.parts.insert(id.value, Part { id, name }), ..before })
}

/// Whether some part of `m` has an id of UUID version 7: only then can a freshly drawn id be
/// taken already.
pub open spec fn holds_v7_part_id(m: StoreModel) -> bool {
    exists|k: u128| #[trigger] m.parts.contains_key(k) && uuid_version(EntityId { value: k }) == 7
}

/// Turns the outcome of a part lookup into the service's answer: a found part, `MissingPart`
/// when the lookup found nothing, and `GeneralError` when the storage failed.
pub fn part_lookup_outcome(found: Result<Option<Part>, StorageError>) -> (r: Result<
    Part,
    InventoryError,
>)
    ensures
        match found {
            Ok(Some(p)) => r == Ok::<Part, InventoryError>(p),
            Ok(None) => r matches Err(InventoryError::MissingPart),
            Err(e) => r == Err::<Part, InventoryError>(InventoryError::GeneralError(e)),
        },
{
    match found {
        Ok(Some(part)) => Ok(part),
        Ok(None) => Err(InventoryError::MissingPart),
        Err(e) => Err(InventoryError::GeneralError(e)),
    }
}

/// Registers a new part under a fresh time-ordered id and returns the id.
///
/// It fails only when the fresh id is already taken, and then stores nothing: a store without a
/// version 7 part id always accepts the part.
pub fn register_part(store: &mut InMemoryStore, name: Name) -> (r: Result<PartId, InventoryError>)
    requires
        well_formed(old(store)@),
    ensures
        well_formed(final(store)@),
        r is Err ==> holds_v7_part_id(old(store)@),
        match r {
            Ok(id) => part_registered(old(store)@, final(store)@, id, name),
            Err(e) => e matches InventoryError::GeneralError(StorageError::DuplicateKey)
                && final(store)@ == old(store)@,
        },
{
    let part = Part::new(name);
    let id = part.id();
    match store.insert_part(part) {
        Ok(()) => Ok(id),
        Err(e) => {
            assert(old(store)@.parts.contains_key(id.value) && uuid_version(
                EntityId { value: id.value },
            ) == 7);
            Err(InventoryError::GeneralError(e))
        },
    }
}

/// The part stored under `id`, or `MissingPart`.
pub fn view_part(store: &InMemoryStore, id: PartId) -> (r: Result<Part, InventoryError>)
    ensures
        match r {
            Ok(p) => part_view_of(store@, id) == Some(p),
            Err(e) => part_view_of(store@, id) is None && e is MissingPart,
        },
{
    part_lookup_outcome(Ok(store.find_part(id)))
}

} // verus!
