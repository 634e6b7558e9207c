//! Project: a named plan with a creation time and a bill of materials (BOM).
use vstd::prelude::*;

use crate::identity::{local_now, new_time_ordered_id, uuid_version, PartId, ProjectId, Timestamp};
use crate::name::Name;

verus! {

/// One BOM entry: a reference to a part by its identifier, and how many of it the project needs.
#[derive(Clone, Copy, Debug, PartialEq, Eq, Structural)]
pub struct ProjectPart {
    pub part: PartId,
    pub quantity: u32,
}

impl ProjectPart {
    pub fn new(part: PartId, quantity: u32) -> (r: ProjectPart)
        ensures
            r == (ProjectPart { part, quantity }),
    {
        ProjectPart { part, quantity }
    }

    pub fn part(&self) -> (r: PartId)
        ensures
            r == self.part,
    {
        self.part
    }

    pub fn quantity(&self) -> (r: u32)
        ensures
            r == self.quantity,
    {
        self.quantity
    }
}

/// A printable project. Its BOM is replaced as a whole, never patched.
#[derive(Debug)]
pub struct Project {
    pub id: ProjectId,
    pub name: Name,
    pub parts: Vec<ProjectPart>,
    pub created_at: Timestamp,
}

impl Project {
    /// A new project with a fresh identifier, created now, with an empty BOM.
    pub fn new(name: Name) -> (r: Project)
        ensures
            r.name == name,
            r.parts@ == Seq::<ProjectPart>::empty(),
            uuid_version(r.id) == 7,
    {
        let id = new_time_ordered_id();
        let created_at = local_now();
        Project::full(id, name, Vec::new(), created_at)
    }

    pub fn full(id: ProjectId, name: Name, parts: Vec<ProjectPart>, created_at: Timestamp) -> (r:
        Project)
        ensures
            r == (Project { id, name, parts, created_at }),
    {
        Project { id, name, parts, created_at }
    }

    pub fn id(&self) -> (r: ProjectId)
        ensures
            r == self.id,
    {
        self.id
    }

    pub fn name(&self) -> (r: &Name)
        ensures
            *r == self.name,
    {
        &self.name
    }

    pub fn parts(&self) -> (r: &[ProjectPart])
        ensures
            r@ == self.parts@,
    {
        self.parts.as_slice()
    }

    pub fn created_at(&self) -> (r: Timestamp)
        ensures
            r == self.created_at,
    {
        self.created_at
    }

    /// Replaces the BOM of the project.
    pub fn define_parts(&mut self, parts: Vec<ProjectPart>)
        ensures
            *final(self) == (Project { parts, ..*old(self) }),
    {
        self.parts = parts;
    }
}

} // verus!
