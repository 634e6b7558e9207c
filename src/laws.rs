//! Properties that relate several operations of the library, proved over their models.
use vstd::prelude::*;

use crate::identity::{PartId, ProjectId};
use crate::rest::{
    fails_validation_with, part_request_answered, project_request_answered, ErrorResponse,
};
use crate::inventory::{part_registered, part_view_of};
use crate::name::{name_fits, parsed_name, Name, NameSubject, MAX_NAME_BYTES};
use crate::part::Part;
use crate::project::ProjectPart;
use crate::projects::{bom_set, project_registered};
use crate::store::{
    bom_of, lemma_bom_of_replaced, lemma_bom_of_without, project_view_of, view_line, StoreModel,
};
use crate::text::{byte_len, trimmed};
use crate::view::{ProjectViewModel, ViewLine};

verus! {

/// Whether `s` begins with `prefix`.
pub open spec fn starts_with(s: Seq<char>, prefix: Seq<char>) -> bool {
    prefix.len() <= s.len() && s.subrange(0, prefix.len() as int) == prefix
}

/// The prefix of every name error code of a `subject`.
pub open spec fn name_code_prefix(subject: NameSubject) -> Seq<char> {
    match subject {
        NameSubject::Part => "part.name"@,
        NameSubject::Project => "project.name"@,
    }
}

/// Parsing a name succeeds exactly when the trimmed text is non-empty and at most
/// `MAX_NAME_BYTES` bytes long, and the name is then the trimmed text.
pub proof fn law_name_is_trimmed_text(subject: NameSubject, raw: Seq<char>)
    ensures
        parsed_name(subject, raw) is Ok <==> (trimmed(raw).len() > 0 && byte_len(trimmed(raw))
            <= MAX_NAME_BYTES),
        parsed_name(subject, raw) is Ok ==> parsed_name(subject, raw)->Ok_0 == trimmed(raw),
{
}

/// An empty, blank or too long name is rejected with an error on the attribute `name` whose code
/// starts with `part.name` or `project.name`.
pub proof fn law_rejected_name_error(subject: NameSubject, raw: Seq<char>)
    requires
        !name_fits(trimmed(raw)),
    ensures
        parsed_name(subject, raw) is Err,
        parsed_name(subject, raw)->Err_0.attribute == "name"@,
        starts_with(parsed_name(subject, raw)->Err_0.code, name_code_prefix(subject)),
{
    reveal_strlit("part.name");
    reveal_strlit("project.name");
    reveal_strlit("part.name.too-short");
    reveal_strlit("part.name.too-long");
    reveal_strlit("project.name.too-short");
    reveal_strlit("project.name.too-long");
    let code = parsed_name(subject, raw)->Err_0.code;
    let prefix = name_code_prefix(subject);
    assert(code.subrange(0, prefix.len() as int) =~= prefix);
}

/// Viewing a part right after registering it gives that part, with the registered name.
pub proof fn law_registered_part_is_viewable(
    before: StoreModel,
    after: StoreModel,
    id: PartId,
    name: Name,
)
    requires
        part_registered(before, after, id, name),
    ensures
        part_view_of(after, id) == Some(Part { id, name }),
{
}

/// Registering a part leaves every other part id as it was: one that was never registered stays
/// unknown.
pub proof fn law_part_registration_keeps_other_ids(
    before: StoreModel,
    after: StoreModel,
    id: PartId,
    name: Name,
    other: PartId,
)
    requires
        part_registered(before, after, id, name),
        other != id,
    ensures
        part_view_of(after, other) == part_view_of(before, other),
{
}

/// Registering a project leaves every other project id as it was: one that was never registered
/// stays unknown.
pub proof fn law_project_registration_keeps_other_ids(
    before: StoreModel,
    after: StoreModel,
    id: ProjectId,
    name: Name,
    other: ProjectId,
)
    requires
        project_registered(before, after, id, name),
        other != id,
    ensures
        project_view_of(after, other.value) is None <==> project_view_of(before, other.value) is None,
{
}

/// A project viewed right after its registration has its name and an empty parts list.
pub proof fn law_new_project_has_empty_bom(
    before: StoreModel,
    after: StoreModel,
    id: ProjectId,
    name: Name,
)
    requires
        project_registered(before, after, id, name),
    ensures
        project_view_of(after, id.value) == Some(
            ProjectViewModel { id: id.value, name: name@, parts: Seq::empty() },
        ),
{
    lemma_bom_of_without(before.bom, id.value, id.value);
    let lines = bom_of(after.bom, id.value).map_values(|p: ProjectPart| view_line(after.parts, p));
    assert(lines =~= Seq::<ViewLine>::empty());
}

/// After the BOM of a project is set, its view lists exactly the new entries, in order, each with
/// the stored name of its part; the BOM of every other project is unchanged.
pub proof fn law_view_lists_new_bom(
    before: StoreModel,
    after: StoreModel,
    id: ProjectId,
    parts: Seq<ProjectPart>,
    other: u128,
)
    requires
        before.projects.contains_key(id.value),
        bom_set(before, after, id, parts),
        other != id.value,
    ensures
        project_view_of(after, id.value) == Some(
            ProjectViewModel {
                id: id.value,
                name: before.projects[id.value].name@,
                parts: parts.map_values(|p: ProjectPart| view_line(before.parts, p)),
            },
        ),
        bom_of(after.bom, other) == bom_of(before.bom, other),
{
    lemma_bom_of_replaced(before, id, parts, id.value);
    lemma_bom_of_replaced(before, id, parts, other);
}

/// Setting a BOM twice leaves only the second one: nothing of the first accumulates.
pub proof fn law_second_bom_replaces_first(
    s0: StoreModel,
    s1: StoreModel,
    s2: StoreModel,
    id: ProjectId,
    first: Seq<ProjectPart>,
    second: Seq<ProjectPart>,
)
    requires
        s0.projects.contains_key(id.value),
        bom_set(s0, s1, id, first),
        bom_set(s1, s2, id, second),
    ensures
        bom_of(s2.bom, id.value) == second,
        project_view_of(s2, id.value) == Some(
            ProjectViewModel {
                id: id.value,
                name: s0.projects[id.value].name@,
                parts: second.map_values(|p: ProjectPart| view_line(s0.parts, p)),
            },
        ),
{
    lemma_bom_of_replaced(s0, id, first, id.value);
    lemma_bom_of_replaced(s1, id, second, id.value);
}

/// A single-entry BOM whose part is stored shows that entry with the part's stored name.
pub proof fn law_single_entry_view(
    before: StoreModel,
    after: StoreModel,
    id: ProjectId,
    part: PartId,
    name: Name,
    quantity: u32,
)
    requires
        before.projects.contains_key(id.value),
        part_view_of(before, part) == Some(Part { id: part, name }),
        bom_set(before, after, id, seq![ProjectPart { part, quantity }]),
    ensures
        project_view_of(after, id.value)->Some_0.parts == seq![
            ViewLine { part_id: part.value, name: name@, quantity },
        ],
{
    lemma_bom_of_replaced(before, id, seq![ProjectPart { part, quantity }], id.value);
    let lines = seq![ProjectPart { part, quantity }].map_values(
        |p: ProjectPart| view_line(after.parts, p),
    );
    assert(lines =~= seq![ViewLine { part_id: part.value, name: name@, quantity }]);
}

/// A part registration request whose name is empty, blank or too long is answered with one
/// validation error on the attribute `name`, with a code that starts with `part.name`, and no
/// part is stored.
pub proof fn law_register_part_rejects_invalid_name(
    before: StoreModel,
    after: StoreModel,
    raw: Seq<char>,
    r: Result<PartId, ErrorResponse>,
)
    requires
        part_request_answered(before, after, raw, r),
        !name_fits(trimmed(raw)),
    ensures
        after == before,
        fails_validation_with(r, parsed_name(NameSubject::Part, raw)->Err_0),
        parsed_name(NameSubject::Part, raw)->Err_0.attribute == "name"@,
        starts_with(parsed_name(NameSubject::Part, raw)->Err_0.code, "part.name"@),
{
    law_rejected_name_error(NameSubject::Part, raw);
}

/// A project registration request whose name is empty, blank or too long is answered with one
/// validation error on the attribute `name`, with a code that starts with `project.name`, and no
/// project is stored.
pub proof fn law_register_project_rejects_invalid_name(
    before: StoreModel,
    after: StoreModel,
    raw: Seq<char>,
    r: Result<ProjectId, ErrorResponse>,
)
    requires
        project_request_answered(before, after, raw, r),
        !name_fits(trimmed(raw)),
    ensures
        after == before,
        fails_validation_with(r, parsed_name(NameSubject::Project, raw)->Err_0),
        parsed_name(NameSubject::Project, raw)->Err_0.attribute == "name"@,
        starts_with(parsed_name(NameSubject::Project, raw)->Err_0.code, "project.name"@),
{
    law_rejected_name_error(NameSubject::Project, raw);
}

} // verus!
