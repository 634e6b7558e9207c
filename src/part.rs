//! Part: a reusable printable component of the inventory.
use vstd::prelude::*;

use crate::identity::{new_time_ordered_id, uuid_version, PartId};
use crate::name::Name;

verus! {

#[derive(Debug)]
pub struct Part {
    pub id: PartId,
    pub name: Name,
}

impl Clone for Part {
    fn clone(&self) -> (r: Self)
        ensures
            r == *self,
    {
        Part { id: self.id, name: self.name.clone() }
    }
}

impl Part {
    /// Rebuilds a part that was stored before.
    pub fn hydrate(id: PartId, name: Name) -> (r: Part)
        ensures
            r == (Part { id, name }),
    {
        Part { id, name }
    }

    /// A new part with a fresh time-ordered identifier.
    pub fn new(name: Name) -> (r: Part)
        ensures
            r.name == name,
            uuid_version(r.id) == 7,
    {
        let id = new_time_ordered_id();
        Part::hydrate(id, name)
    }

    pub fn id(&self) -> (r: PartId)
        ensures
            r == self.id,
    {
        self.id
    }

    pub fn name(&self) -> (r: &Name)
        ensures
            *r == self.name,
    {
        &self.name
    }
}

} // verus!
