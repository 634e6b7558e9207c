//! The request boundary: commands, their validation, and the mapping of every outcome onto an
//! error response with a status code (not found 404, validation 400, internal 500).
use vstd::prelude::*;

use crate::identity::{PartId, ProjectId};
use crate::inventory::{holds_v7_part_id, register_part, view_part, InventoryError};
use crate::name::{parsed_name, Name, NameSubject};
use crate::part::Part;
use crate::project::ProjectPart;
use crate::projects::{
    holds_v7_project_id, register_project, set_project_bom, view_project, ProjectError,
};
use crate::store::{
    bom_replace_fits, project_view_of, replaced_bom, well_formed, without_project, InMemoryStore,
    StoreModel,
};
use crate::validation::{CollectingValidator, ValidationError, ValidationErrorModel};
use crate::view::ProjectView;

verus! {

#[derive(Debug)]
pub enum ErrorResponse {
    NotFound,
    /// One entry per invalid field, in the order the fields were validated.
    ValidationFailed(Vec<ValidationError>),
    InternalError,
}

/// The status code of an error response.
pub open spec fn status_of(e: ErrorResponse) -> u16 {
    match e {
        ErrorResponse::NotFound => 404,
        ErrorResponse::ValidationFailed(_) => 400,
        ErrorResponse::InternalError => 500,
    }
}

impl ErrorResponse {
    pub fn status_code(&self) -> (r: u16)
        ensures
            r == status_of(*self),
    {
        match self {
            ErrorResponse::NotFound => 404,
            ErrorResponse::ValidationFailed(_) => 400,
            ErrorResponse::InternalError => 500,
        }
    }

    /// A missing part is "not found"; a storage failure is an internal error, with no detail.
    pub fn from_inventory_error(e: InventoryError) -> (r: ErrorResponse)
        ensures
            match e {
                InventoryError::MissingPart => r is NotFound,
                InventoryError::GeneralError(_) => r is InternalError,
            },
    {
        match e {
            InventoryError::MissingPart => ErrorResponse::NotFound,
            InventoryError::GeneralError(_) => ErrorResponse::InternalError,
        }
    }

    /// A missing project is "not found"; a storage failure is an internal error, with no detail.
    pub fn from_project_error(e: ProjectError) -> (r: ErrorResponse)
        ensures
            match e {
                ProjectError::MissingProject => r is NotFound,
                ProjectError::GeneralError(_) => r is InternalError,
            },
    {
        match e {
            ProjectError::MissingProject => ErrorResponse::NotFound,
            ProjectError::GeneralError(_) => ErrorResponse::InternalError,
        }
    }
}

/// The body of a validation failure: every field error of the request.
#[derive(Debug)]
pub struct ValidationMessage {
    pub errors: Vec<ValidationError>,
}

/// Request to register a part.
#[derive(Debug)]
pub struct RegisterPartCommand {
    pub name: String,
}

/// Request to register a project.
#[derive(Debug)]
pub struct RegisterProjectCommand {
    pub name: String,
}

/// Whether `r` reports a validation failure with the one error `em`.
pub open spec fn fails_validation_with<T>(r: Result<T, ErrorResponse>, em: ValidationErrorModel) -> bool {
    r matches Err(ErrorResponse::ValidationFailed(errs)) && errs@.len() == 1 && errs@[0]@ == em
}

/// What validating the name `raw` of a `subject` at the boundary gives: the parsed name, or a
/// validation failure with that one error.
pub open spec fn validated(
    subject: NameSubject,
    raw: Seq<char>,
    r: Result<Name, ErrorResponse>,
) -> bool {
    match parsed_name(subject, raw) {
        Ok(t) => r matches Ok(n) && n@ == t,
        Err(em) => fails_validation_with(r, em),
    }
}

fn parse_command_name(subject: NameSubject, raw: &str) -> (r: Result<Name, ErrorResponse>)
    ensures
        validated(subject, raw@, r),
{
    let mut validator = CollectingValidator::new();
    let name = validator.parse_name(subject, raw);
    if validator.has_errors() {
        Err(ErrorResponse::ValidationFailed(validator.into_errors()))
    } else {
        match name {
            Ok(n) => Ok(n),
            Err(_) => Err(ErrorResponse::InternalError),
        }
    }
}

/// Validates a part registration; error codes start with `part.name`.
pub fn parse_register_part_command(payload: RegisterPartCommand) -> (r: Result<Name, ErrorResponse>)
    ensures
        validated(NameSubject::Part, payload.name@, r),
{
    parse_command_name(NameSubject::Part, payload.name.as_str())
}

/// Validates a project registration; error codes start with `project.name`.
pub fn parse_create_request(payload: RegisterProjectCommand) -> (r: Result<Name, ErrorResponse>)
    ensures
        validated(NameSubject::Project, payload.name@, r),
{
    parse_command_name(NameSubject::Project, payload.name.as_str())
}

/// How the store and the answer relate after a part registration request with the name `raw`.
pub open spec fn part_request_answered(
    before: StoreModel,
    after: StoreModel,
    raw: Seq<char>,
    r: Result<PartId, ErrorResponse>,
) -> bool {
    match parsed_name(NameSubject::Part, raw) {
        Err(em) => after == before && fails_validation_with(r, em),
        Ok(t) => match r {
            Ok(id) => {
                let part = after.parts[id.value];
                &&& !before.parts.contains_key(id.value)
                &&& part.id == id
                &&& part.name@ == t
                &&& after == (StoreModel { parts: before.parts.insert(id.value, part), ..before })
            },
            Err(e) => e is InternalError && after == before && holds_v7_part_id(before),
        },
    }
}

/// Registers a part from a request. An invalid name is reported before anything is stored; a
/// valid one fails only when the freshly drawn id is already taken.
pub fn handle_register_part(store: &mut InMemoryStore, payload: RegisterPartCommand) -> (r: Result<
    PartId,
    ErrorResponse,
>)
    requires
        well_formed(old(store)@),
    ensures
        well_formed(final(store)@),
        part_request_answered(old(store)@, final(store)@, payload.name@, r),
{
    let name = match parse_register_part_command(payload) {
        Ok(name) => name,
        Err(e) => return Err(e),
    };
    match register_part(store, name) {
        Ok(id) => Ok(id),
        Err(e) => Err(ErrorResponse::from_inventory_error(e)),
    }
}

/// Looks up a part for a request: "not found" when it is not stored.
pub fn handle_view_part(store: &InMemoryStore, id: PartId) -> (r: Result<Part, ErrorResponse>)
    ensures
        match r {
            Ok(p) => store@.parts.contains_key(id.value) && p == store@.parts[id.value],
            Err(e) => !store@.parts.contains_key(id.value) && e is NotFound,
        },
{
    match view_part(store, id) {
        Ok(part) => Ok(part),
        Err(e) => Err(ErrorResponse::from_inventory_error(e)),
    }
}

/// How the store and the answer relate after a project registration request with the name
/// `raw`.
pub open spec fn project_request_answered(
    before: StoreModel,
    after: StoreModel,
    raw: Seq<char>,
    r: Result<ProjectId, ErrorResponse>,
) -> bool {
    match parsed_name(NameSubject::Project, raw) {
        Err(em) => after == before && fails_validation_with(r, em),
        Ok(t) => match r {
            Ok(id) => {
                let record = after.projects[id.value];
                &&& !before.projects.contains_key(id.value)
                &&& record.id == id
                &&& record.name@ == t
                &&& after == (StoreModel {
                    projects: before.projects.insert(id.value, record),
                    bom: without_project(before.bom, id.value),
                    ..before
                })
            },
            Err(e) => e is InternalError && after == before && holds_v7_project_id(before),
        },
    }
}

/// Registers a project from a request. An invalid name is reported before anything is stored; a
/// valid one fails only when the freshly drawn id is already taken.
pub fn handle_register_project(store: &mut InMemoryStore, payload: RegisterProjectCommand) -> (r:
    Result<ProjectId, ErrorResponse>)
    requires
        well_formed(old(store)@),
    ensures
        well_formed(final(store)@),
        project_request_answered(old(store)@, final(store)@, payload.name@, r),
{
    let name = match parse_create_request(payload) {
        Ok(name) => name,
        Err(e) => return Err(e),
    };
    match register_project(store, name) {
        Ok(id) => Ok(id),
        Err(e) => Err(ErrorResponse::from_project_error(e)),
    }
}

/// Views a project for a request: "not found" when it is not stored.
pub fn handle_view_project(store: &InMemoryStore, id: ProjectId) -> (r: Result<
    ProjectView,
    ErrorResponse,
>)
    ensures
        match r {
            Ok(v) => project_view_of(store@, id.value) == Some(v@),
            Err(e) => project_view_of(store@, id.value) is None && e is NotFound,
        },
{
    match view_project(store, id) {
        Ok(view) => Ok(view),
        Err(e) => Err(ErrorResponse::from_project_error(e)),
    }
}

/// Replaces a project's BOM for a request: "not found" when the project is not stored, an
/// internal error when the storage fails, and then the BOM stays as it was.
pub fn handle_define_project_bom(
    store: &mut InMemoryStore,
    id: ProjectId,
    parts: Vec<ProjectPart>,
) -> (r: Result<(), ErrorResponse>)
    requires
        well_formed(old(store)@),
    ensures
        well_formed(final(store)@),
        !old(store)@.projects.contains_key(id.value) ==> (r matches Err(ErrorResponse::NotFound)
            && final(store)@ == old(store)@),
        old(store)@.projects.contains_key(id.value) ==> {
            &&& r is Ok <==> bom_replace_fits(old(store)@, id, parts@)
            &&& r is Ok ==> final(store)@ == (StoreModel {
                bom: replaced_bom(old(store)@, id, parts@),
                ..old(store)@
            })
            &&& r matches Err(e) ==> e is InternalError && final(store)@ == old(store)@
        },
{
    match set_project_bom(store, id, parts) {
        Ok(()) => Ok(()),
        Err(e) => Err(ErrorResponse::from_project_error(e)),
    }
}

} // verus!
