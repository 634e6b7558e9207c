//! The projects service: registers projects, views them and sets their BOM.
use vstd::prelude::*;

use crate::identity::{uuid_version, EntityId, ProjectId};
use crate::name::Name;
use crate::project::{Project, ProjectPart};
use crate::store::{
    bom_replace_fits, lemma_without_project_len, project_view_of, replaced_bom, well_formed,
    without_project, InMemoryStore, ProjectRecord, StorageError, StoreModel,
};
use crate::view::ProjectView;

verus! {

#[derive(Debug)]
pub enum ProjectError {
    /// The requested project is not stored.
    MissingProject,
    /// The storage failed; the cause is kept.
    GeneralError(StorageError),
}

/// `after` is `before` with a new project `id` named `name` and an empty BOM, and nothing else
/// changed but its creation time.
pub open spec fn project_registered(
    before: StoreModel,
    after: StoreModel,
    id: ProjectId,
    name: Name,
) -> bool {
    let record = after.projects[id.value];
    &&& !before.projects.contains_key(id.value)
    &&& record.id == id
    &&& record.name == name
    &&& after == (StoreModel {
        projects: before.projects.insert(id.value, record),
        bom: without_project(before.bom, id.value),
        ..before
    })
}

/// `after` is `before` with the BOM of project `id` replaced by `parts`, and nothing else changed.
pub open spec fn bom_set(
    before: StoreModel,
    after: StoreModel,
    id: ProjectId,
    parts: Seq<ProjectPart>,
) -> bool {
    after == (StoreModel { bom: replaced_bom(before, id, parts), ..before })
}

/// Whether some project of `m` has an id of UUID version 7: only then can a freshly drawn id be
/// taken already.
pub open spec fn holds_v7_project_id(m: StoreModel) -> bool {
    exists|k: u128|
        #[trigger] m.projects.contains_key(k) && uuid_version(EntityId { value: k }) == 7
}

/// Turns the outcome of a view lookup into the service's answer: a found view, `MissingProject`
/// when the lookup found nothing, and `GeneralError` when the storage failed.
pub fn project_view_outcome(found: Result<Option<ProjectView>, StorageError>) -> (r: Result<
    ProjectView,
    ProjectError,
>)
    ensures
        match found {
            Ok(Some(v)) => r == Ok::<ProjectView, ProjectError>(v),
            Ok(None) => r matches Err(ProjectError::MissingProject),
            Err(e) => r == Err::<ProjectView, ProjectError>(ProjectError::GeneralError(e)),
        },
{
    match found {
        Ok(Some(view)) => Ok(view),
        Ok(None) => Err(ProjectError::MissingProject),
        Err(e) => Err(ProjectError::GeneralError(e)),
    }
}

/// Turns the outcome of a BOM replace on an external database into the service's answer. The
/// outcome tells whether the project was found; the replace is atomic on the database's side.
pub fn bom_update_outcome(found: Result<bool, StorageError>) -> (r: Result<(), ProjectError>)
    ensures
        match found {
            Ok(true) => r is Ok,
            Ok(false) => r matches Err(ProjectError::MissingProject),
            Err(e) => r == Err::<(), ProjectError>(ProjectError::GeneralError(e)),
        },
{
    match found {
        Ok(true) => Ok(()),
        Ok(false) => Err(ProjectError::MissingProject),
        Err(e) => Err(ProjectError::GeneralError(e)),
    }
}

/// Registers a new project, created now with an empty BOM, under a fresh time-ordered id.
///
/// It fails only when the fresh id is already taken, and then stores nothing: a store without a
/// version 7 project id always accepts the project.
pub fn register_project(store: &mut InMemoryStore, name: Name) -> (r: Result<
    ProjectId,
    ProjectError,
>)
    requires
        well_formed(old(store)@),
    ensures
        well_formed(final(store)@),
        r is Err ==> holds_v7_project_id(old(store)@),
        match r {
            Ok(id) => project_registered(old(store)@, final(store)@, id, name),
            Err(e) => e matches ProjectError::GeneralError(StorageError::DuplicateKey)
                && final(store)@ == old(store)@,
        },
{
    let project = Project::new(name);
    let ghost created_at = project.created_at;
    let ghost id = project.id;
    proof {
        lemma_without_project_len(store@.bom, id.value);
        assert(replaced_bom(store@, id, project.parts@) =~= without_project(store@.bom, id.value));
    }
    match store.create_project(project) {
        Ok(id) => {
            assert(final(store)@ == (StoreModel {
                projects: old(store)@.projects.insert(
                    id.value,
                    ProjectRecord { id, name, created_at },
                ),
                bom: without_project(old(store)@.bom, id.value),
                ..old(store)@
            }));
            Ok(id)
        },
        Err(e) => {
            assert(old(store)@.projects.contains_key(id.value) && uuid_version(
                EntityId { value: id.value },
            ) == 7);
            Err(ProjectError::GeneralError(e))
        },
    }
}

/// The view of the project stored under `id`, or `MissingProject`.
pub fn view_project(store: &InMemoryStore, id: ProjectId) -> (r: Result<ProjectView, ProjectError>)
    ensures
        match r {
            Ok(v) => project_view_of(store@, id.value) == Some(v@),
            Err(e) => project_view_of(store@, id.value) is None && e is MissingProject,
        },
{
    project_view_outcome(Ok(store.get_view_by_id(id)))
}

/// Replaces the whole BOM of the project `id` by `parts`, atomically.
///
/// `MissingProject` when no such project is stored. When the new rows do not fit the BOM table,
/// the storage error is returned and the BOM stays as it was.
pub fn set_project_bom(store: &mut InMemoryStore, id: ProjectId, parts: Vec<ProjectPart>) -> (r:
    Result<(), ProjectError>)
    requires
        well_formed(old(store)@),
    ensures
        well_formed(final(store)@),
        !old(store)@.projects.contains_key(id.value) ==> (r matches Err(
            ProjectError::MissingProject,
        ) && final(store)@ == old(store)@),
        old(store)@.projects.contains_key(id.value) ==> {
            &&& r is Ok <==> bom_replace_fits(old(store)@, id, parts@)
            &&& r is Ok ==> bom_set(old(store)@, final(store)@, id, parts@)
            &&& r matches Err(e) ==> e matches ProjectError::GeneralError(
                StorageError::RowLimitReached,
            ) && final(store)@ == old(store)@
        },
{
    let mut project = match store.find_project(id) {
        Some(project) => project,
        None => return Err(ProjectError::MissingProject),
    };
    let ghost before = store@;
    project.define_parts(parts);
    match store.update_project(project) {
        Ok(()) => {
            assert(store@.projects =~= before.projects);
            Ok(())
        },
        Err(e) => Err(ProjectError::GeneralError(e)),
    }
}

} // verus!
