//! Read model of a project: the project with its BOM joined against the parts' names.
use vstd::prelude::*;

use crate::identity::{PartId, ProjectId};

verus! {

/// One line of a project view, as plain values.
pub struct ViewLine {
    pub part_id: u128,
    pub name: Seq<char>,
    pub quantity: u32,
}

/// A project view, as plain values.
pub struct ProjectViewModel {
    pub id: u128,
    pub name: Seq<char>,
    pub parts: Seq<ViewLine>,
}

/// One line of a project view: the part, its name as stored, and the quantity.
#[derive(Debug)]
pub struct ProjectPart {
    pub part_id: PartId,
    pub name: String,
    pub quantity: u32,
}

impl View for ProjectPart {
    type V = ViewLine;

    open spec fn view(&self) -> ViewLine {
        ViewLine { part_id: self.part_id.value, name: self.name@, quantity: self.quantity }
    }
}

impl ProjectPart {
    pub fn new(part_id: PartId, name: String, quantity: u32) -> (r: ProjectPart)
        ensures
            r == (ProjectPart { part_id, name, quantity }),
    {
        ProjectPart { part_id, name, quantity }
    }

    pub fn id(&self) -> (r: PartId)
        ensures
            r == self.part_id,
    {
        self.part_id
    }

    pub fn name(&self) -> (r: &str)
        ensures
            r@ == self.name@,
    {
        self.name.as_str()
    }

    pub fn quantity(&self) -> (r: u32)
        ensures
            r == self.quantity,
    {
        self.quantity
    }
}

/// The lines of a view, as plain values.
pub open spec fn lines_view(lines: Seq<ProjectPart>) -> Seq<ViewLine> {
    lines.map_values(|p: ProjectPart| p@)
}

/// A denormalised view of a project, rebuilt from storage on every query.
#[derive(Debug)]
pub struct ProjectView {
    pub id: ProjectId,
    pub name: String,
    pub bom: Vec<ProjectPart>,
}

impl View for ProjectView {
    type V = ProjectViewModel;

    open spec fn view(&self) -> ProjectViewModel {
        ProjectViewModel { id: self.id.value, name: self.name@, parts: lines_view(self.bom@) }
    }
}

impl ProjectView {
    pub fn new(id: ProjectId, name: String, parts: Vec<ProjectPart>) -> (r: ProjectView)
        ensures
            r == (ProjectView { id, name, bom: parts }),
    {
        ProjectView { id, name, bom: parts }
    }

    pub fn id(&self) -> (r: ProjectId)
        ensures
            r == self.id,
    {
        self.id
    }

    pub fn name(&self) -> (r: &str)
        ensures
            r@ == self.name@,
    {
        self.name.as_str()
    }

    pub fn bom_size(&self) -> (r: usize)
        ensures
            r == self.bom@.len(),
    {
        self.bom.len()
    }

    pub fn parts(&self) -> (r: &[ProjectPart])
        ensures
            r@ == self.bom@,
    {
        self.bom.as_slice()
    }
}

} // verus!
