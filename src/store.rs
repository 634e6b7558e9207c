//! An in-memory relational store with three tables: parts, projects and BOM rows.
//!
//! Replacing a project's BOM deletes its rows and inserts the new ones as one transaction: the
//! new table is staged aside and committed only when every insert succeeded. The BOM table holds
//! at most `bom_limit` rows; an insert beyond that fails and the transaction rolls back.
use std::collections::HashMap;
use vstd::prelude::*;

use crate::identity::{PartId, ProjectId, Timestamp};
use crate::name::Name;
use crate::part::Part;
use crate::project::{Project, ProjectPart};
use crate::view::{lines_view, ProjectPart as ViewPart, ProjectView, ProjectViewModel, ViewLine};

verus! {

broadcast use vstd::std_specs::hash::group_hash_axioms;

/// A failure of the storage layer.
#[derive(Debug)]
pub enum StorageError {
    /// A row with the same key is already stored.
    DuplicateKey,
    /// The row to update does not exist.
    MissingRow,
    /// The BOM table has no room for the rows to insert.
    RowLimitReached,
    /// A failure reported by an external database, with its description.
    Backend(String),
}

/// A row of the projects table.
#[derive(Debug)]
pub struct ProjectRecord {
    pub id: ProjectId,
    pub name: Name,
    pub created_at: Timestamp,
}

/// A row of the BOM table.
#[derive(Clone, Copy, Debug, PartialEq, Eq, Structural)]
pub struct BomRow {
    pub project: ProjectId,
    pub part: PartId,
    pub quantity: u32,
}

/// The contents of the store: each table keyed by the identifiers' values, the BOM rows in the
/// order in which they were inserted, and the largest number of BOM rows.
pub struct StoreModel {
    pub parts: Map<u128, Part>,
    pub projects: Map<u128, ProjectRecord>,
    pub bom: Seq<BomRow>,
    pub bom_limit: nat,
}

/// The BOM of project `pid`: its rows, in table order.
pub open spec fn bom_of(rows: Seq<BomRow>, pid: u128) -> Seq<ProjectPart>
    decreases rows.len(),
{
    if rows.len() == 0 {
        Seq::empty()
    } else {
        let earlier = bom_of(rows.drop_last(), pid);
        let row = rows.last();
        if row.project.value == pid {
            earlier.push(ProjectPart { part: row.part, quantity: row.quantity })
        } else {
            earlier
        }
    }
}

/// The rows that do not belong to project `pid`, in table order.
pub open spec fn without_project(rows: Seq<BomRow>, pid: u128) -> Seq<BomRow>
    decreases rows.len(),
{
    if rows.len() == 0 {
        Seq::empty()
    } else {
        let kept = without_project(rows.drop_last(), pid);
        if rows.last().project.value == pid {
            kept
        } else {
            kept.push(rows.last())
        }
    }
}

/// The BOM rows that record `parts` for project `id`.
pub open spec fn rows_for(id: ProjectId, parts: Seq<ProjectPart>) -> Seq<BomRow> {
    parts.map_values(|p: ProjectPart| BomRow { project: id, part: p.part, quantity: p.quantity })
}

/// The BOM table after the rows of project `id` are replaced by `parts`.
pub open spec fn replaced_bom(m: StoreModel, id: ProjectId, parts: Seq<ProjectPart>) -> Seq<
    BomRow,
> {
    without_project(m.bom, id.value) + rows_for(id, parts)
}

/// Whether replacing the rows of project `id` by `parts` stays within the row limit.
pub open spec fn bom_replace_fits(m: StoreModel, id: ProjectId, parts: Seq<ProjectPart>) -> bool {
    replaced_bom(m, id, parts).len() <= m.bom_limit
}

/// The name of the part `id` as stored; empty when no such part is stored.
pub open spec fn stored_name(parts: Map<u128, Part>, id: u128) -> Seq<char> {
    if parts.contains_key(id) {
        parts[id].name@
    } else {
        Seq::empty()
    }
}

/// A BOM entry joined with the stored name of its part.
pub open spec fn view_line(parts: Map<u128, Part>, p: ProjectPart) -> ViewLine {
    ViewLine { part_id: p.part.value, name: stored_name(parts, p.part.value), quantity: p.quantity }
}

/// The view of project `pid`, or `None` when no such project is stored.
pub open spec fn project_view_of(m: StoreModel, pid: u128) -> Option<ProjectViewModel> {
    if m.projects.contains_key(pid) {
        Some(
            ProjectViewModel {
                id: pid,
                name: m.projects[pid].name@,
                parts: bom_of(m.bom, pid).map_values(|p: ProjectPart| view_line(m.parts, p)),
            },
        )
    } else {
        None
    }
}

/// Deleting rows never makes the table longer.
pub proof fn lemma_without_project_len(rows: Seq<BomRow>, pid: u128)
    ensures
        without_project(rows, pid).len() <= rows.len(),
    decreases rows.len(),
{
    if rows.len() > 0 {
        lemma_without_project_len(rows.drop_last(), pid);
    }
}

pub proof fn lemma_bom_of_concat(a: Seq<BomRow>, b: Seq<BomRow>, pid: u128)
    ensures
        bom_of(a + b, pid) == bom_of(a, pid) + bom_of(b, pid),
    decreases b.len(),
{
    if b.len() == 0 {
        assert(a + b =~= a);
        assert(bom_of(a, pid) + bom_of(b, pid) =~= bom_of(a, pid));
    } else {
        assert((a + b).drop_last() =~= a + b.drop_last());
        lemma_bom_of_concat(a, b.drop_last(), pid);
        assert((bom_of(a, pid) + bom_of(b.drop_last(), pid)).push(
            ProjectPart { part: b.last().part, quantity: b.last().quantity },
        ) =~= bom_of(a, pid) + bom_of(b.drop_last(), pid).push(
            ProjectPart { part: b.last().part, quantity: b.last().quantity },
        ));
    }
}

pub proof fn lemma_bom_of_without(rows: Seq<BomRow>, pid: u128, q: u128)
    ensures
        bom_of(without_project(rows, pid), q) == if q == pid {
            Seq::<ProjectPart>::empty()
        } else {
            bom_of(rows, q)
        },
    decreases rows.len(),
{
    if rows.len() > 0 {
        lemma_bom_of_without(rows.drop_last(), pid, q);
        let kept = without_project(rows.drop_last(), pid);
        if rows.last().project.value != pid {
            assert(kept.push(rows.last()).drop_last() =~= kept);
        }
    }
}

pub proof fn lemma_bom_of_rows_for(id: ProjectId, parts: Seq<ProjectPart>, q: u128)
    ensures
        bom_of(rows_for(id, parts), q) == if q == id.value {
            parts
        } else {
            Seq::<ProjectPart>::empty()
        },
    decreases parts.len(),
{
    if parts.len() > 0 {
        assert(rows_for(id, parts).drop_last() =~= rows_for(id, parts.drop_last()));
        lemma_bom_of_rows_for(id, parts.drop_last(), q);
        if q == id.value {
            assert(parts.drop_last().push(parts.last()) =~= parts);
        }
    } else {
        assert(rows_for(id, parts) =~= Seq::<BomRow>::empty());
    }
}

/// After a replace, project `id` has exactly `parts` and every other project keeps its BOM.
pub proof fn lemma_bom_of_replaced(m: StoreModel, id: ProjectId, parts: Seq<ProjectPart>, q: u128)
    ensures
        bom_of(replaced_bom(m, id, parts), q) == if q == id.value {
            parts
        } else {
            bom_of(m.bom, q)
        },
{
    lemma_bom_of_concat(without_project(m.bom, id.value), rows_for(id, parts), q);
    lemma_bom_of_without(m.bom, id.value, q);
    lemma_bom_of_rows_for(id, parts, q);
    if q == id.value {
        assert(Seq::<ProjectPart>::empty() + parts =~= parts);
    } else {
        assert(bom_of(m.bom, q) + Seq::<ProjectPart>::empty() =~= bom_of(m.bom, q));
    }
}

/// Whether each stored part and project is keyed by the value of its own id, and the BOM table
/// is within its limit.
pub open spec fn well_formed(m: StoreModel) -> bool {
    &&& m.bom.len() <= m.bom_limit
    &&& forall|k: u128| #[trigger] m.parts.contains_key(k) ==> m.parts[k].id.value == k
    &&& forall|k: u128| #[trigger] m.projects.contains_key(k) ==> m.projects[k].id.value == k
}

/// The in-memory store.
pub struct InMemoryStore {
    parts: HashMap<u128, Part>,
    projects: HashMap<u128, ProjectRecord>,
    bom: Vec<BomRow>,
    bom_limit: usize,
}

impl View for InMemoryStore {
    type V = StoreModel;

    closed spec fn view(&self) -> StoreModel {
        StoreModel {
            parts: self.parts@,
            projects: self.projects@,
            bom: self.bom@,
            bom_limit: self.bom_limit as nat,
        }
    }
}

impl InMemoryStore {
    /// An empty store whose BOM table holds at most `bom_limit` rows.
    pub fn with_bom_limit(bom_limit: usize) -> (r: InMemoryStore)
        ensures
            well_formed(r@),
            r@ == (StoreModel {
                parts: Map::empty(),
                projects: Map::empty(),
                bom: Seq::empty(),
                bom_limit: bom_limit as nat,
            }),
    {
        InMemoryStore {
            parts: HashMap::new(),
            projects: HashMap::new(),
            bom: Vec::new(),
            bom_limit,
        }
    }

    /// An empty store whose BOM table is bounded only by the machine.
    pub fn new() -> (r: InMemoryStore)
        ensures
            well_formed(r@),
            r@ == (StoreModel {
                parts: Map::empty(),
                projects: Map::empty(),
                bom: Seq::empty(),
                bom_limit: usize::MAX as nat,
            }),
    {
        InMemoryStore::with_bom_limit(usize::MAX)
    }

    /// Stores a new part; fails when a part with the same id is stored.
    pub fn insert_part(&mut self, part: Part) -> (r: Result<(), StorageError>)
        requires
            well_formed(old(self)@),
        ensures
            well_formed(final(self)@),
            old(self)@.parts.contains_key(part.id.value) ==> (r matches Err(StorageError::DuplicateKey)
                && final(self)@ == old(self)@),
            !old(self)@.parts.contains_key(part.id.value) ==> r is Ok && final(self)@ == (StoreModel {
                parts: old(self)@.parts.insert(part.id.value, part),
                ..old(self)@
            }),
    {
        if self.parts.contains_key(&part.id.value) {
            return Err(StorageError::DuplicateKey);
        }
        self.parts.insert(part.id.value, part);
        Ok(())
    }

    /// The part stored under `id`, if any.
    pub fn find_part(&self, id: PartId) -> (r: Option<Part>)
        ensures
            r == if self@.parts.contains_key(id.value) {
                Some(self@.parts[id.value])
            } else {
                None
            },
    {
        match self.parts.get(&id.value) {
            Some(part) => Some(part.clone()),
            None => None,
        }
    }

    /// The BOM of project `id`, read from the BOM table.
    fn collect_bom(&self, id: ProjectId) -> (r: Vec<ProjectPart>)
        ensures
            r@ == bom_of(self@.bom, id.value),
    {
        let mut out: Vec<ProjectPart> = Vec::new();
        let n = self.bom.len();
        for i in 0..n
            invariant
                n == self.bom@.len(),
                out@ == bom_of(self.bom@.take(i as int), id.value),
        {
            let row = self.bom[i];
            assert(self.bom@.take(i + 1).drop_last() =~= self.bom@.take(i as int));
            if row.project.value == id.value {
                out.push(ProjectPart { part: row.part, quantity: row.quantity });
            }
        }
        assert(self.bom@.take(n as int) =~= self.bom@);
        out
    }

    /// Replaces the BOM rows of project `id` by rows for `parts`, as one transaction: the rows
    /// are staged aside, and the table is left as it was when an insert fails.
    fn replace_rows(&mut self, id: ProjectId, parts: &Vec<ProjectPart>) -> (r: Result<
        (),
        StorageError,
    >)
        ensures
            r is Ok <==> bom_replace_fits(old(self)@, id, parts@),
            r is Ok ==> final(self)@ == (StoreModel {
                bom: replaced_bom(old(self)@, id, parts@),
                ..old(self)@
            }),
            r matches Err(e) ==> e is RowLimitReached && final(self)@ == old(self)@,
    {
        let mut staged: Vec<BomRow> = Vec::new();
        let n = self.bom.len();
        for i in 0..n
            invariant
                n == self.bom@.len(),
                staged@ == without_project(self.bom@.take(i as int), id.value),
                staged@.len() <= i,
        {
            let row = self.bom[i];
            assert(self.bom@.take(i + 1).drop_last() =~= self.bom@.take(i as int));
            if row.project.value != id.value {
                staged.push(row);
            }
        }
        assert(self.bom@.take(n as int) =~= self.bom@);
        let m = parts.len();
        for j in 0..m
            invariant
                m == parts@.len(),
                staged@ == without_project(self.bom@, id.value) + rows_for(id, parts@.take(j as int)),
        {
            let p = parts[j];
            if staged.len() >= self.bom_limit {
                assert(replaced_bom(self@, id, parts@).len() > self.bom_limit);
                return Err(StorageError::RowLimitReached);
            }
            assert(rows_for(id, parts@.take(j + 1)) =~= rows_for(id, parts@.take(j as int)).push(
                BomRow { project: id, part: p.part, quantity: p.quantity },
            ));
            staged.push(BomRow { project: id, part: p.part, quantity: p.quantity });
        }
        assert(parts@.take(m as int) =~= parts@);
        if staged.len() > self.bom_limit {
            return Err(StorageError::RowLimitReached);
        }
        self.bom = staged;
        Ok(())
    }

    /// Stores a new project and its BOM; fails when a project with the same id is stored or when
    /// the BOM does not fit.
    pub fn create_project(&mut self, project: Project) -> (r: Result<ProjectId, StorageError>)
        requires
            well_formed(old(self)@),
        ensures
            well_formed(final(self)@),
            old(self)@.projects.contains_key(project.id.value) ==> (r matches Err(
                StorageError::DuplicateKey,
            ) && final(self)@ == old(self)@),
            !old(self)@.projects.contains_key(project.id.value) ==> {
                &&& r is Ok <==> bom_replace_fits(old(self)@, project.id, project.parts@)
                &&& r matches Ok(id) ==> id == project.id && final(self)@ == (StoreModel {
                    projects: old(self)@.projects.insert(
                        project.id.value,
                        ProjectRecord {
                            id: project.id,
                            name: project.name,
                            created_at: project.created_at,
                        },
                    ),
                    bom: replaced_bom(old(self)@, project.id, project.parts@),
                    ..old(self)@
                })
                &&& r matches Err(e) ==> e is RowLimitReached && final(self)@ == old(self)@
            },
    {
        let id = project.id;
        if self.projects.contains_key(&id.value) {
            return Err(StorageError::DuplicateKey);
        }
        match self.replace_rows(id, &project.parts) {
            Ok(()) => {},
            Err(e) => return Err(e),
        }
        let record = ProjectRecord { id, name: project.name, created_at: project.created_at };
        self.projects.insert(id.value, record);
        Ok(id)
    }

    /// The project stored under `id`, with its BOM, if any.
    pub fn find_project(&self, id: ProjectId) -> (r: Option<Project>)
        requires
            well_formed(self@),
        ensures
            r is Some <==> self@.projects.contains_key(id.value),
            r matches Some(p) ==> {
                &&& p.id == id
                &&& p.name == self@.projects[id.value].name
                &&& p.created_at == self@.projects[id.value].created_at
                &&& p.parts@ == bom_of(self@.bom, id.value)
            },
    {
        match self.projects.get(&id.value) {
            Some(record) => {
                let parts = self.collect_bom(id);
                Some(Project::full(record.id, record.name.clone(), parts, record.created_at))
            },
            None => None,
        }
    }

    /// Stores the name and the BOM of a stored project. The old BOM rows are deleted and the new
    /// ones inserted in one transaction: on failure nothing changes.
    pub fn update_project(&mut self, project: Project) -> (r: Result<(), StorageError>)
        requires
            well_formed(old(self)@),
        ensures
            well_formed(final(self)@),
            !old(self)@.projects.contains_key(project.id.value) ==> (r matches Err(
                StorageError::MissingRow,
            ) && final(self)@ == old(self)@),
            old(self)@.projects.contains_key(project.id.value) ==> {
                &&& r is Ok <==> bom_replace_fits(old(self)@, project.id, project.parts@)
                &&& r is Ok ==> final(self)@ == (StoreModel {
                    projects: old(self)@.projects.insert(
                        project.id.value,
                        ProjectRecord {
                            name: project.name,
                            ..old(self)@.projects[project.id.value]
                        },
                    ),
                    bom: replaced_bom(old(self)@, project.id, project.parts@),
                    ..old(self)@
                })
                &&& r matches Err(e) ==> e is RowLimitReached && final(self)@ == old(self)@
            },
    {
        let id = project.id;
        let created_at = match self.projects.get(&id.value) {
            Some(record) => record.created_at,
            None => return Err(StorageError::MissingRow),
        };
        match self.replace_rows(id, &project.parts) {
            Ok(()) => {},
            Err(e) => return Err(e),
        }
        let record = ProjectRecord { id, name: project.name, created_at };
        self.projects.insert(id.value, record);
        Ok(())
    }

    /// The name of the part `id` as stored; empty when no such part is stored.
    fn part_name(&self, id: PartId) -> (r: String)
        ensures
            r@ == stored_name(self@.parts, id.value),
    {
        match self.parts.get(&id.value) {
            Some(part) => part.name.to_string(),
            None => String::new(),
        }
    }

    /// Assembles the view of project `id`: the project row, then its BOM rows in table order,
    /// each joined with the stored name of its part. `None` when no such project is stored.
    pub fn get_view_by_id(&self, id: ProjectId) -> (r: Option<ProjectView>)
        ensures
            match r {
                Some(v) => project_view_of(self@, id.value) == Some(v@),
                None => project_view_of(self@, id.value) is None,
            },
    {
        let record = match self.projects.get(&id.value) {
            Some(record) => record,
            None => return None,
        };
        let bom = self.collect_bom(id);
        let ghost joined = bom@.map_values(|p: ProjectPart| view_line(self@.parts, p));
        let mut lines: Vec<ViewPart> = Vec::new();
        let n = bom.len();
        for i in 0..n
            invariant
                n == bom@.len(),
                joined == bom@.map_values(|p: ProjectPart| view_line(self@.parts, p)),
                lines_view(lines@) == joined.take(i as int),
        {
            let entry = bom[i];
            let name = self.part_name(entry.part);
            let line = ViewPart::new(entry.part, name, entry.quantity);
            assert(lines_view(lines@.push(line)) =~= lines_view(lines@).push(line@));
            assert(joined.take(i + 1) =~= joined.take(i as int).push(joined[i as int]));
            lines.push(line);
        }
        assert(joined.take(n as int) =~= joined);
        Some(ProjectView::new(id, record.name.to_string(), lines))
    }
}

} // verus!
