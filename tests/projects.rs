use printtables::identity::EntityId;
use printtables::name::Name;
use printtables::project::{Project, ProjectPart};
use printtables::projects::{
    bom_update_outcome, project_view_outcome, register_project, set_project_bom, view_project, ProjectError,
};
use printtables::rest::{
    handle_define_project_bom, handle_register_part, handle_register_project, handle_view_project,
    parse_create_request, ErrorResponse, RegisterPartCommand, RegisterProjectCommand,
};
use printtables::store::{InMemoryStore, StorageError};
use printtables::view::ProjectView;

fn register(store: &mut InMemoryStore, raw: &str) -> EntityId {
    register_project(store, Name::parse(raw).unwrap()).unwrap()
}

fn new_part(store: &mut InMemoryStore, raw: &str) -> EntityId {
    handle_register_part(store, RegisterPartCommand { name: raw.to_string() }).unwrap()
}

fn lines(view: &ProjectView) -> Vec<(EntityId, String, u32)> {
    view.parts()
        .iter()
        .map(|p| (p.id(), p.name().to_string(), p.quantity()))
        .collect()
}

#[test]
fn register_project_register_and_view_project() {
    let mut store = InMemoryStore::new();
    let command = RegisterProjectCommand { name: "Multiboard Wall".to_string() };
    let id = handle_register_project(&mut store, command)
        .expect("the service did not respond with created status");
    let view = handle_view_project(&store, id).expect("the newly created project must be found");
    assert_eq!(
        view.name(),
        "Multiboard Wall",
        "project name is not the same as created project name"
    );
}

#[test]
fn register_project_viewing_missing_project_responds_404() {
    let store = InMemoryStore::new();
    let fake_id = EntityId { value: uuid::Uuid::now_v7().as_u128() };
    match handle_view_project(&store, fake_id) {
        Err(e) => assert_eq!(
            e.status_code(),
            404,
            "service must respond with 404 when viewing missing project"
        ),
        Ok(_) => panic!("service must respond with 404 when viewing missing project"),
    }
}

#[test]
fn register_project_register_invalid_project() {
    let mut store = InMemoryStore::new();
    let command = RegisterProjectCommand { name: "".to_string() };
    let errors = match handle_register_project(&mut store, command) {
        Err(ErrorResponse::ValidationFailed(errors)) => errors,
        _ => panic!("the service did not reject invalid project payload"),
    };
    let first_err = errors.first().expect("validation message must contain entries");
    assert!(first_err.code().starts_with("project.name"), "incorrect error code");
    assert_eq!(first_err.attribute(), "name");
}

#[test]
fn manage_parts_register_project_and_set_parts() {
    let mut store = InMemoryStore::new();
    let project = register(&mut store, "Wall Panel");
    let part = new_part(&mut store, "Peg");

    let view = view_project(&store, project).unwrap();
    assert_eq!(
        view.parts().len(),
        0,
        "the project must have no parts after creation, but it wasn't empty"
    );

    let quantity: u32 = 42;
    let result = handle_define_project_bom(&mut store, project, vec![ProjectPart::new(part, quantity)]);
    assert!(result.is_ok());

    let view = view_project(&store, project).unwrap();
    assert_eq!(view.parts().len(), 1, "the project must contain parts that were added");
    let entry = &view.parts()[0];
    assert_eq!(entry.id(), part);
    assert_eq!(entry.quantity(), quantity);
    assert_eq!(entry.name(), "Peg");
}

#[test]
fn new_project_view_has_empty_bom() {
    let mut store = InMemoryStore::new();
    let id = register(&mut store, "Lamp");
    let view = view_project(&store, id).unwrap();
    assert_eq!(view.id(), id);
    assert_eq!(view.name(), "Lamp");
    assert_eq!(view.bom_size(), 0);
}

#[test]
fn bom_entry_shows_the_part_name() {
    let mut store = InMemoryStore::new();
    let project = register(&mut store, "Shelf");
    let widget = new_part(&mut store, "Widget");
    set_project_bom(&mut store, project, vec![ProjectPart::new(widget, 5)]).unwrap();
    let view = view_project(&store, project).unwrap();
    assert_eq!(lines(&view), vec![(widget, "Widget".to_string(), 5)]);
}

#[test]
fn second_bom_replaces_the_first() {
    let mut store = InMemoryStore::new();
    let project = register(&mut store, "Shelf");
    let a = new_part(&mut store, "A");
    let b = new_part(&mut store, "B");
    let c = new_part(&mut store, "C");
    set_project_bom(&mut store, project, vec![ProjectPart::new(a, 1), ProjectPart::new(b, 2)])
        .unwrap();
    set_project_bom(&mut store, project, vec![ProjectPart::new(c, 3)]).unwrap();
    let view = view_project(&store, project).unwrap();
    assert_eq!(lines(&view), vec![(c, "C".to_string(), 3)]);
    let found = store.find_project(project).unwrap();
    assert_eq!(found.parts(), &[ProjectPart::new(c, 3)]);
}

#[test]
fn bom_keeps_the_given_order_and_duplicates() {
    let mut store = InMemoryStore::new();
    let project = register(&mut store, "Frame");
    let a = new_part(&mut store, "A");
    let b = new_part(&mut store, "B");
    let bom = vec![ProjectPart::new(b, 2), ProjectPart::new(a, 0), ProjectPart::new(b, 7)];
    set_project_bom(&mut store, project, bom).unwrap();
    let view = view_project(&store, project).unwrap();
    assert_eq!(
        lines(&view),
        vec![(b, "B".to_string(), 2), (a, "A".to_string(), 0), (b, "B".to_string(), 7)]
    );
}

#[test]
fn setting_a_bom_leaves_other_projects_alone() {
    let mut store = InMemoryStore::new();
    let first = register(&mut store, "First");
    let second = register(&mut store, "Second");
    let part = new_part(&mut store, "Knob");
    set_project_bom(&mut store, first, vec![ProjectPart::new(part, 1)]).unwrap();
    set_project_bom(&mut store, second, vec![ProjectPart::new(part, 9)]).unwrap();
    set_project_bom(&mut store, second, vec![]).unwrap();
    let view = view_project(&store, first).unwrap();
    assert_eq!(lines(&view), vec![(part, "Knob".to_string(), 1)]);
    assert_eq!(view_project(&store, second).unwrap().bom_size(), 0);
}

#[test]
fn failed_bom_replace_rolls_back() {
    let mut store = InMemoryStore::with_bom_limit(3);
    let project = register(&mut store, "Organizer");
    let a = new_part(&mut store, "A");
    let b = new_part(&mut store, "B");
    set_project_bom(&mut store, project, vec![ProjectPart::new(a, 1), ProjectPart::new(b, 2)])
        .unwrap();
    let too_many = vec![
        ProjectPart::new(a, 1),
        ProjectPart::new(b, 1),
        ProjectPart::new(a, 1),
        ProjectPart::new(b, 1),
    ];
    let result = set_project_bom(&mut store, project, too_many);
    assert!(matches!(
        result,
        Err(ProjectError::GeneralError(StorageError::RowLimitReached))
    ));
    let view = view_project(&store, project).unwrap();
    assert_eq!(lines(&view), vec![(a, "A".to_string(), 1), (b, "B".to_string(), 2)]);
}

#[test]
fn failed_bom_replace_is_an_internal_error() {
    let mut store = InMemoryStore::with_bom_limit(1);
    let project = register(&mut store, "Organizer");
    let a = new_part(&mut store, "A");
    let bom = vec![ProjectPart::new(a, 1), ProjectPart::new(a, 2)];
    match handle_define_project_bom(&mut store, project, bom) {
        Err(e) => assert_eq!(e.status_code(), 500),
        Ok(_) => panic!("two rows cannot fit a table of one row"),
    }
    assert_eq!(view_project(&store, project).unwrap().bom_size(), 0);
}

#[test]
fn bom_of_missing_project_is_not_found() {
    let mut store = InMemoryStore::new();
    let part = new_part(&mut store, "A");
    let missing = EntityId { value: 99 };
    let result = set_project_bom(&mut store, missing, vec![ProjectPart::new(part, 1)]);
    assert!(matches!(result, Err(ProjectError::MissingProject)));
    match handle_define_project_bom(&mut store, missing, vec![]) {
        Err(e) => assert_eq!(e.status_code(), 404),
        Ok(_) => panic!("a missing project must not be found"),
    }
}

#[test]
fn dangling_part_shows_an_empty_name() {
    let mut store = InMemoryStore::new();
    let project = register(&mut store, "Stand");
    let ghost = EntityId { value: 424242 };
    set_project_bom(&mut store, project, vec![ProjectPart::new(ghost, 4)]).unwrap();
    let view = view_project(&store, project).unwrap();
    assert_eq!(lines(&view), vec![(ghost, String::new(), 4)]);
}

#[test]
fn unknown_project_is_missing_not_general_error() {
    let mut store = InMemoryStore::new();
    register(&mut store, "Known");
    let unknown = EntityId { value: 5 };
    assert!(matches!(view_project(&store, unknown), Err(ProjectError::MissingProject)));
}

#[test]
fn blank_project_name_is_rejected_and_nothing_is_stored() {
    let mut store = InMemoryStore::new();
    let response = handle_register_project(&mut store, RegisterProjectCommand { name: " \t ".to_string() });
    match response {
        Err(ErrorResponse::ValidationFailed(errors)) => {
            assert_eq!(errors.len(), 1);
            assert_eq!(errors[0].attribute(), "name");
            assert_eq!(errors[0].code(), "project.name.too-short");
        }
        _ => panic!("a blank project name must be rejected"),
    }
    let long = parse_create_request(RegisterProjectCommand { name: "q".repeat(201) });
    match long {
        Err(ErrorResponse::ValidationFailed(errors)) => {
            assert_eq!(errors[0].code(), "project.name.too-long")
        }
        _ => panic!("a long project name must be rejected"),
    }
}

#[test]
fn desk_organizer_scenario() {
    let mut store = InMemoryStore::new();
    let desk = register(&mut store, "Desk Organizer");
    let bolt = new_part(&mut store, "M3 Bolt");
    set_project_bom(&mut store, desk, vec![ProjectPart::new(bolt, 12)]).unwrap();
    let view = view_project(&store, desk).unwrap();
    assert_eq!(view.id(), desk);
    assert_eq!(view.name(), "Desk Organizer");
    assert_eq!(lines(&view), vec![(bolt, "M3 Bolt".to_string(), 12)]);
}

#[test]
fn new_project_is_created_now_with_empty_bom() {
    let before = chrono::Local::now().naive_local().and_utc().timestamp_micros();
    let project = Project::new(Name::parse("Clock").unwrap());
    let after = chrono::Local::now().naive_local().and_utc().timestamp_micros();
    assert!(before <= project.created_at().micros && project.created_at().micros <= after);
    assert!(project.parts().is_empty());
    assert_eq!(uuid::Uuid::from_u128(project.id().value).get_version_num(), 7);
}

#[test]
fn duplicate_project_id_is_refused() {
    let mut store = InMemoryStore::new();
    let project = Project::new(Name::parse("Tray").unwrap());
    let copy = Project::full(project.id(), Name::parse("Other").unwrap(), vec![], project.created_at());
    let id = store.create_project(project).unwrap();
    assert!(matches!(store.create_project(copy), Err(StorageError::DuplicateKey)));
    assert_eq!(store.find_project(id).unwrap().name().as_str(), "Tray");
}

#[test]
fn update_of_missing_project_is_refused() {
    let mut store = InMemoryStore::new();
    let project = Project::new(Name::parse("Ghost").unwrap());
    assert!(matches!(store.update_project(project), Err(StorageError::MissingRow)));
}

#[test]
fn update_renames_and_replaces_bom() {
    let mut store = InMemoryStore::new();
    let id = register(&mut store, "Old");
    let part = new_part(&mut store, "Part");
    let mut project = store.find_project(id).unwrap();
    let created = project.created_at();
    project.define_parts(vec![ProjectPart::new(part, 2)]);
    let renamed = Project::full(id, Name::parse("New").unwrap(), project.parts().to_vec(), created);
    store.update_project(renamed).unwrap();
    let found = store.find_project(id).unwrap();
    assert_eq!(found.name().as_str(), "New");
    assert_eq!(found.created_at(), created);
    assert_eq!(found.parts(), &[ProjectPart::new(part, 2)]);
}

#[test]
fn project_view_outcomes() {
    let view = ProjectView::new(EntityId { value: 1 }, "P".to_string(), vec![]);
    assert_eq!(project_view_outcome(Ok(Some(view))).unwrap().name(), "P");
    assert!(matches!(project_view_outcome(Ok(None)), Err(ProjectError::MissingProject)));
    let failed = project_view_outcome(Err(StorageError::Backend("locked".to_string())));
    assert!(matches!(failed, Err(ProjectError::GeneralError(StorageError::Backend(_)))));
    assert_eq!(ErrorResponse::from_project_error(ProjectError::MissingProject).status_code(), 404);
    let general = ProjectError::GeneralError(StorageError::RowLimitReached);
    assert_eq!(ErrorResponse::from_project_error(general).status_code(), 500);
}

#[test]
fn bom_update_outcomes() {
    assert!(bom_update_outcome(Ok(true)).is_ok());
    assert!(matches!(bom_update_outcome(Ok(false)), Err(ProjectError::MissingProject)));
    let failed = bom_update_outcome(Err(StorageError::Backend("busy".to_string())));
    match failed {
        Err(ProjectError::GeneralError(StorageError::Backend(cause))) => assert_eq!(cause, "busy"),
        _ => panic!("a storage failure must be a general error"),
    }
}
