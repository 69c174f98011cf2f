use goal_tracker::errors::CustomError;
use goal_tracker::handlers::data::{
    get_all_initiatives, get_all_keyresults, get_all_measures, get_all_objectives,
    get_all_projects, get_all_tasks, get_all_themes,
};
use goal_tracker::handlers::hypermedia::{
    add_initiative, add_keyresult, add_measure, add_objective, add_project, add_record, add_task,
    add_theme, get_error_404_page, get_initiative, get_initiative_form, get_initiative_row,
    get_keyresult, get_keyresult_form, get_keyresult_measurements, get_keyresult_row,
    get_measure_form, get_measure_row, get_objective, get_objective_form,
    get_objective_initiatives, get_objective_keyresults, get_objective_projects,
    get_objective_row, get_project, get_project_form, get_project_row, get_project_tasks,
    get_root, get_root_themes, get_task_form, get_task_row, get_theme, get_theme_form,
    get_theme_objectives, get_theme_row, remove_initiative, remove_keyresult, remove_measure,
    remove_objective, remove_project, remove_record, remove_resource, remove_task, remove_theme,
    update_initiative, update_keyresult, update_measure, update_objective, update_project,
    update_record, update_task, update_theme,
};
use goal_tracker::model::{
    CreateInitiative, CreateKeyResult, CreateMeasurement, CreateObjective, CreateProject,
    CreateTask, CreateTheme, Patch, ResourceKind, Status, Timestamp, UpdateInitiative,
    UpdateKeyResult, UpdateMeasurement, UpdateObjective, UpdateProject, UpdateTask, UpdateTheme,
};
use goal_tracker::paths::{listing_path, push_decimal};
use goal_tracker::resolver::{error_page, render, resolve, FragmentKind};
use goal_tracker::store::Store;
use goal_tracker::templater::{
    ErrorTemplate, FragmentPayload, HtmlTemplate, PageKeyResultTemplate, PageThemeTemplate,
    RowThemeTemplate, TableTasksTemplate,
};

fn at(secs: i64) -> Timestamp {
    Timestamp { secs, nanos: 7 }
}

fn is_error(payload: &FragmentPayload, code: u16, message: &str) -> bool {
    match payload {
        FragmentPayload::Error(template) => {
            template.error_code == code && template.error_message == message
        }
        _ => false,
    }
}

/// Theme 1 "Physique", objective 1 under it, key result 1, initiative 1 and
/// project 1 under the objective, task 1 under the project, measurement 1
/// under the key result.
fn seeded() -> Store {
    let mut store = Store::new();
    add_theme(&mut store, CreateTheme { new_title: "Physique".to_string() }, at(1)).unwrap();
    add_objective(
        &mut store,
        CreateObjective { new_title: "Build a killer physique".to_string(), theme_id: 1 },
        at(2),
    )
    .unwrap();
    add_keyresult(
        &mut store,
        CreateKeyResult { new_title: "Bench 100 kg".to_string(), objective_id: 1 },
        at(3),
    )
    .unwrap();
    add_initiative(
        &mut store,
        CreateInitiative { new_title: "Train thrice a week".to_string(), objective_id: 1 },
        at(4),
    )
    .unwrap();
    add_project(
        &mut store,
        CreateProject { new_title: "Build gym routine".to_string(), objective_id: 1 },
        at(5),
    )
    .unwrap();
    add_task(&mut store, CreateTask { new_title: "Pick exercises".to_string(), project_id: 1 }, at(6))
        .unwrap();
    add_measure(
        &mut store,
        CreateMeasurement { new_title: "95 kg".to_string(), keyresult_id: 1 },
        at(7),
    )
    .unwrap();
    store
}

#[test]
fn project_resolves_to_in_progress_then_completed() {
    let mut store = Store::new();
    let theme = add_theme(&mut store, CreateTheme { new_title: "Physique".to_string() }, at(1))
        .unwrap()
        .id;
    let objective = add_objective(
        &mut store,
        CreateObjective { new_title: "Build a killer physique".to_string(), theme_id: theme },
        at(2),
    )
    .unwrap()
    .id;
    let project = add_project(
        &mut store,
        CreateProject { new_title: "Build gym routine".to_string(), objective_id: objective },
        at(3),
    )
    .unwrap()
    .id;
    let first =
        add_task(&mut store, CreateTask { new_title: "one".to_string(), project_id: project }, at(4))
            .unwrap()
            .id;
    let second =
        add_task(&mut store, CreateTask { new_title: "two".to_string(), project_id: project }, at(5))
            .unwrap()
            .id;
    update_task(
        &mut store,
        first,
        UpdateTask { title: "one".to_string(), status: Status::InProgress },
        at(6),
    );
    update_task(
        &mut store,
        second,
        UpdateTask { title: "two".to_string(), status: Status::Completed },
        at(7),
    );
    match get_project_row(&store, project) {
        FragmentPayload::RowProject(row) => {
            assert_eq!(row.project.project_status, Status::InProgress)
        }
        other => panic!("not a project row: {:?}", other),
    }
    update_task(
        &mut store,
        first,
        UpdateTask { title: "one".to_string(), status: Status::Completed },
        at(8),
    );
    match get_project_row(&store, project) {
        FragmentPayload::RowProject(row) => {
            assert_eq!(row.project.project_status, Status::Completed)
        }
        other => panic!("not a project row: {:?}", other),
    }
}

#[test]
fn row_of_a_missing_theme_is_the_not_found_page() {
    let store = seeded();
    let payload = get_theme_row(&store, 999);
    assert!(is_error(&payload, 404, "Theme Not Found"));
    assert!(!is_error(&payload, 500, "Internal Server Error"));
}

#[test]
fn objective_under_a_missing_theme_is_refused() {
    let mut store = seeded();
    let before = get_all_objectives(&store).1.len();
    let made = add_objective(
        &mut store,
        CreateObjective { new_title: "nowhere".to_string(), theme_id: 999 },
        at(9),
    );
    assert_eq!(made.err(), Some(CustomError::ParentNotFound));
    assert_eq!(get_all_objectives(&store).1.len(), before);
    match get_theme_objectives(&store, 999) {
        FragmentPayload::TableObjectives(table) => {
            assert_eq!(table.objectives.map(|o| o.len()), Some(0));
            assert_eq!(table.theme_id, 999);
        }
        other => panic!("not a table: {:?}", other),
    }
}

#[test]
fn each_missing_record_is_reported_under_its_kind() {
    let store = Store::new();
    assert!(is_error(&get_theme(&store, 1), 404, "Theme Not Found"));
    assert!(is_error(&get_theme_form(&store, 1), 404, "Theme Not Found"));
    assert!(is_error(&get_objective(&store, 1), 404, "Objective Not Found"));
    assert!(is_error(&get_objective_row(&store, 1), 404, "Objective Not Found"));
    assert!(is_error(&get_objective_form(&store, 1), 404, "Objective Not Found"));
    assert!(is_error(&get_keyresult(&store, 1), 404, "Key Result Not Found"));
    assert!(is_error(&get_keyresult_row(&store, 1), 404, "Key Result Not Found"));
    assert!(is_error(&get_keyresult_form(&store, 1), 404, "Key Result Not Found"));
    assert!(is_error(&get_initiative(&store, 1), 404, "Initiative Not Found"));
    assert!(is_error(&get_initiative_row(&store, 1), 404, "Initiative Not Found"));
    assert!(is_error(&get_initiative_form(&store, 1), 404, "Initiative Not Found"));
    assert!(is_error(&get_project(&store, 1), 404, "Project Not Found"));
    assert!(is_error(&get_project_row(&store, 1), 404, "Project Not Found"));
    assert!(is_error(&get_project_form(&store, 1), 404, "Project Not Found"));
    assert!(is_error(&get_task_row(&store, 1), 404, "Task Not Found"));
    assert!(is_error(&get_task_form(&store, 1), 404, "Task Not Found"));
    assert!(is_error(&get_measure_row(&store, 1), 404, "Measurement Not Found"));
    assert!(is_error(&get_measure_form(&store, 1), 404, "Measurement Not Found"));
}

#[test]
fn error_messages_and_codes() {
    let cases = [
        (CustomError::BadRequest, 400, "Bad Request"),
        (CustomError::ParentNotFound, 404, "Parent Not Found"),
        (CustomError::ThemeNotFound, 404, "Theme Not Found"),
        (CustomError::ObjectiveNotFound, 404, "Objective Not Found"),
        (CustomError::KeyResultNotFound, 404, "Key Result Not Found"),
        (CustomError::InitiativeNotFound, 404, "Initiative Not Found"),
        (CustomError::ProjectNotFound, 404, "Project Not Found"),
        (CustomError::TaskNotFound, 404, "Task Not Found"),
        (CustomError::MeasurementNotFound, 404, "Measurement Not Found"),
        (CustomError::InternalServerError, 500, "Internal Server Error"),
    ];
    for (error, code, message) in cases {
        assert_eq!(error.get_error_message(), (code, message.to_string()));
        assert!(is_error(&error_page(error), code, message));
    }
    assert_eq!(CustomError::not_found(ResourceKind::Task), CustomError::TaskNotFound);
    assert!(is_error(&get_error_404_page(), 400, "Bad Request"));
}

#[test]
fn root_page_and_theme_list_hold_all_themes() {
    let mut store = seeded();
    add_theme(&mut store, CreateTheme { new_title: "Mind".to_string() }, at(9)).unwrap();
    match get_root(&store) {
        FragmentPayload::PageRoot(page) => {
            let titles: Vec<String> = page.themes.unwrap().into_iter().map(|t| t.title).collect();
            assert_eq!(titles, vec!["Physique".to_string(), "Mind".to_string()]);
        }
        other => panic!("not the root page: {:?}", other),
    }
    match get_root_themes(&store) {
        FragmentPayload::TableThemes(table) => {
            let ids: Vec<i32> = table.themes.unwrap().iter().map(|t| t.theme_id).collect();
            assert_eq!(ids, vec![1, 2]);
        }
        other => panic!("not the theme list: {:?}", other),
    }
    match get_root(&Store::new()) {
        FragmentPayload::PageRoot(page) => assert_eq!(page.themes.map(|t| t.len()), Some(0)),
        other => panic!("not the root page: {:?}", other),
    }
}

#[test]
fn pages_hold_the_record_its_parent_and_its_children() {
    let store = seeded();
    match get_theme(&store, 1) {
        FragmentPayload::PageTheme(page) => {
            assert_eq!(page.title, "Physique");
            assert_eq!(page.theme_id, 1);
            assert_eq!(page.theme_status, Status::NotStarted);
            assert_eq!(page.objectives.unwrap().len(), 1);
        }
        other => panic!("not a theme page: {:?}", other),
    }
    match get_objective(&store, 1) {
        FragmentPayload::PageObjective(page) => {
            assert_eq!(page.title, "Build a killer physique");
            assert_eq!(page.objective_id, 1);
            assert_eq!(page.theme_id, 1);
            assert_eq!(page.theme_title, "Physique");
            assert_eq!(page.keyresults.unwrap()[0].title, "Bench 100 kg");
            assert_eq!(page.initiatives.unwrap()[0].title, "Train thrice a week");
            assert_eq!(page.projects.unwrap()[0].title, "Build gym routine");
        }
        other => panic!("not an objective page: {:?}", other),
    }
    match get_keyresult(&store, 1) {
        FragmentPayload::PageKeyResult(page) => {
            assert_eq!(page.title, "Bench 100 kg");
            assert_eq!(page.keyresult_id, 1);
            assert_eq!(page.objective_id, 1);
            assert_eq!(page.objective_title, "Build a killer physique");
            assert_eq!(page.measurements.unwrap()[0].measurement, "95 kg");
        }
        other => panic!("not a key result page: {:?}", other),
    }
    match get_initiative(&store, 1) {
        FragmentPayload::PageInitiative(page) => {
            assert_eq!(page.title, "Train thrice a week");
            assert_eq!(page.objective_id, 1);
            assert_eq!(page.objective_title, "Build a killer physique");
        }
        other => panic!("not an initiative page: {:?}", other),
    }
    match get_project(&store, 1) {
        FragmentPayload::PageProject(page) => {
            assert_eq!(page.title, "Build gym routine");
            assert_eq!(page.project_id, 1);
            assert_eq!(page.objective_id, 1);
            assert_eq!(page.objective_title, "Build a killer physique");
            let tasks = page.tasks.unwrap();
            assert_eq!(tasks.len(), 1);
            assert_eq!(tasks[0].title, "Pick exercises");
            assert_eq!(tasks[0].created_at, Some(at(6)));
        }
        other => panic!("not a project page: {:?}", other),
    }
}

#[test]
fn page_of_a_record_whose_parent_is_gone_has_an_empty_parent_title() {
    let mut store = seeded();
    remove_theme(&mut store, 1);
    match get_objective(&store, 1) {
        FragmentPayload::PageObjective(page) => {
            assert_eq!(page.theme_id, 1);
            assert_eq!(page.theme_title, "");
            assert_eq!(page.title, "Build a killer physique");
        }
        other => panic!("not an objective page: {:?}", other),
    }
}

#[test]
fn rows_and_forms_hold_the_record() {
    let store = seeded();
    match get_theme_row(&store, 1) {
        FragmentPayload::RowTheme(row) => assert_eq!(row.theme.title, "Physique"),
        other => panic!("{:?}", other),
    }
    match get_theme_form(&store, 1) {
        FragmentPayload::EditRowTheme(form) => assert_eq!(form.theme.theme_id, 1),
        other => panic!("{:?}", other),
    }
    match get_objective_row(&store, 1) {
        FragmentPayload::RowObjective(row) => assert_eq!(row.objective.theme_id, 1),
        other => panic!("{:?}", other),
    }
    match get_objective_form(&store, 1) {
        FragmentPayload::EditRowObjective(form) => {
            assert_eq!(form.objective.created_at, Some(at(2)))
        }
        other => panic!("{:?}", other),
    }
    match get_keyresult_row(&store, 1) {
        FragmentPayload::RowKeyResult(row) => assert_eq!(row.keyresult.title, "Bench 100 kg"),
        other => panic!("{:?}", other),
    }
    match get_keyresult_form(&store, 1) {
        FragmentPayload::EditRowKeyResult(form) => assert_eq!(form.keyresult.objective_id, 1),
        other => panic!("{:?}", other),
    }
    match get_initiative_row(&store, 1) {
        FragmentPayload::RowInitiative(row) => {
            assert_eq!(row.initiative.initiative_status, Status::NotStarted)
        }
        other => panic!("{:?}", other),
    }
    match get_initiative_form(&store, 1) {
        FragmentPayload::EditRowInitiative(form) => assert_eq!(form.initiative.initiative_id, 1),
        other => panic!("{:?}", other),
    }
    match get_project_form(&store, 1) {
        FragmentPayload::EditRowProject(form) => assert_eq!(form.project.title, "Build gym routine"),
        other => panic!("{:?}", other),
    }
    match get_task_row(&store, 1) {
        FragmentPayload::RowTask(row) => assert_eq!(row.task.project_id, 1),
        other => panic!("{:?}", other),
    }
    match get_task_form(&store, 1) {
        FragmentPayload::EditRowTask(form) => assert_eq!(form.task.title, "Pick exercises"),
        other => panic!("{:?}", other),
    }
    match get_measure_row(&store, 1) {
        FragmentPayload::RowMeasurement(row) => assert_eq!(row.measurement.measurement, "95 kg"),
        other => panic!("{:?}", other),
    }
    match get_measure_form(&store, 1) {
        FragmentPayload::EditRowMeasurement(form) => assert_eq!(form.measurement.keyresult_id, 1),
        other => panic!("{:?}", other),
    }
}

#[test]
fn lists_hold_the_children_and_the_parent_id() {
    let mut store = seeded();
    add_task(&mut store, CreateTask { new_title: "Buy shoes".to_string(), project_id: 1 }, at(8))
        .unwrap();
    match get_project_tasks(&store, 1) {
        FragmentPayload::TableTasks(table) => {
            assert_eq!(table.project_id, 1);
            let titles: Vec<String> = table.tasks.unwrap().into_iter().map(|t| t.title).collect();
            assert_eq!(titles, vec!["Pick exercises".to_string(), "Buy shoes".to_string()]);
        }
        other => panic!("{:?}", other),
    }
    match get_theme_objectives(&store, 1) {
        FragmentPayload::TableObjectives(table) => {
            assert_eq!(table.theme_id, 1);
            assert_eq!(table.objectives.unwrap().len(), 1);
        }
        other => panic!("{:?}", other),
    }
    match get_objective_keyresults(&store, 1) {
        FragmentPayload::TableKeyResults(table) => {
            assert_eq!(table.objective_id, 1);
            assert_eq!(table.keyresults.unwrap().len(), 1);
        }
        other => panic!("{:?}", other),
    }
    match get_objective_initiatives(&store, 1) {
        FragmentPayload::TableInitiatives(table) => {
            assert_eq!(table.initiatives.unwrap().len(), 1)
        }
        other => panic!("{:?}", other),
    }
    match get_objective_projects(&store, 1) {
        FragmentPayload::TableProjects(table) => assert_eq!(table.projects.unwrap().len(), 1),
        other => panic!("{:?}", other),
    }
    match get_keyresult_measurements(&store, 1) {
        FragmentPayload::TableMeasurements(table) => {
            assert_eq!(table.keyresult_id, 1);
            assert_eq!(table.measurements.unwrap().len(), 1);
        }
        other => panic!("{:?}", other),
    }
}

#[test]
fn list_under_a_childless_parent_is_empty_not_an_error() {
    let store = seeded();
    match get_project_tasks(&store, 5) {
        FragmentPayload::TableTasks(table) => {
            assert_eq!(table.tasks.map(|t| t.len()), Some(0));
            assert_eq!(table.project_id, 5);
        }
        other => panic!("{:?}", other),
    }
    match get_keyresult_measurements(&store, 2) {
        FragmentPayload::TableMeasurements(table) => {
            assert_eq!(table.measurements.map(|m| m.len()), Some(0))
        }
        other => panic!("{:?}", other),
    }
}

#[test]
fn resolve_tells_malformed_requests_from_missing_records() {
    let store = seeded();
    let bad = Some(CustomError::BadRequest);
    assert_eq!(resolve(&store, ResourceKind::Task, None, FragmentKind::Row, None).err(), bad);
    assert_eq!(resolve(&store, ResourceKind::Task, None, FragmentKind::Form, None).err(), bad);
    assert_eq!(resolve(&store, ResourceKind::Task, Some(1), FragmentKind::Page, None).err(), bad);
    assert_eq!(
        resolve(&store, ResourceKind::Measurement, Some(1), FragmentKind::Page, None).err(),
        bad
    );
    assert_eq!(resolve(&store, ResourceKind::Objective, None, FragmentKind::Page, None).err(), bad);
    assert_eq!(resolve(&store, ResourceKind::Task, None, FragmentKind::Table, None).err(), bad);
    assert_eq!(
        resolve(&store, ResourceKind::Task, Some(9), FragmentKind::Page, None).err(),
        Some(CustomError::TaskNotFound)
    );
    assert_eq!(
        resolve(&store, ResourceKind::Task, Some(9), FragmentKind::Table, Some(1)).err(),
        Some(CustomError::TaskNotFound)
    );
    assert_eq!(
        resolve(&store, ResourceKind::Objective, Some(9), FragmentKind::Row, None).err(),
        Some(CustomError::ObjectiveNotFound)
    );
    assert!(resolve(&store, ResourceKind::Theme, None, FragmentKind::Page, None).is_ok());
    assert!(resolve(&store, ResourceKind::Theme, None, FragmentKind::Table, None).is_ok());
    assert!(resolve(&store, ResourceKind::Task, None, FragmentKind::Table, Some(77)).is_ok());
    assert!(is_error(
        &render(&store, ResourceKind::Task, None, FragmentKind::Row, None),
        400,
        "Bad Request"
    ));
}

#[test]
fn add_answers_with_the_id_and_the_parent_listing() {
    let mut store = Store::new();
    let theme = add_theme(&mut store, CreateTheme { new_title: "t".to_string() }, at(1)).unwrap();
    assert_eq!((theme.id, theme.location.as_str()), (1, "/"));
    let objective = add_objective(
        &mut store,
        CreateObjective { new_title: "o".to_string(), theme_id: 1 },
        at(1),
    )
    .unwrap();
    assert_eq!((objective.id, objective.location.as_str()), (1, "/theme/1/objectives"));
    let keyresult = add_keyresult(
        &mut store,
        CreateKeyResult { new_title: "k".to_string(), objective_id: 1 },
        at(1),
    )
    .unwrap();
    assert_eq!(keyresult.location, "/objective/1/keyresults");
    let initiative = add_initiative(
        &mut store,
        CreateInitiative { new_title: "i".to_string(), objective_id: 1 },
        at(1),
    )
    .unwrap();
    assert_eq!(initiative.location, "/objective/1/initiatives");
    let project = add_project(
        &mut store,
        CreateProject { new_title: "p".to_string(), objective_id: 1 },
        at(1),
    )
    .unwrap();
    assert_eq!(project.location, "/objective/1/projects");
    let task =
        add_task(&mut store, CreateTask { new_title: "a".to_string(), project_id: 1 }, at(1)).unwrap();
    assert_eq!(task.location, "/project/1/tasks");
    let measure = add_measure(
        &mut store,
        CreateMeasurement { new_title: "m".to_string(), keyresult_id: 1 },
        at(1),
    )
    .unwrap();
    assert_eq!(measure.location, "/keyresult/1/measures");
    let second =
        add_task(&mut store, CreateTask { new_title: "b".to_string(), project_id: 1 }, at(1)).unwrap();
    assert_eq!(second.id, 2);
}

#[test]
fn add_under_a_missing_parent_is_refused_for_every_kind() {
    let mut store = Store::new();
    let missing = Some(CustomError::ParentNotFound);
    assert_eq!(
        add_objective(&mut store, CreateObjective { new_title: "o".to_string(), theme_id: 1 }, at(1))
            .err(),
        missing
    );
    assert_eq!(
        add_keyresult(
            &mut store,
            CreateKeyResult { new_title: "k".to_string(), objective_id: 1 },
            at(1)
        )
        .err(),
        missing
    );
    assert_eq!(
        add_initiative(
            &mut store,
            CreateInitiative { new_title: "i".to_string(), objective_id: 1 },
            at(1)
        )
        .err(),
        missing
    );
    assert_eq!(
        add_project(&mut store, CreateProject { new_title: "p".to_string(), objective_id: 1 }, at(1))
            .err(),
        missing
    );
    assert_eq!(
        add_task(&mut store, CreateTask { new_title: "a".to_string(), project_id: 1 }, at(1)).err(),
        missing
    );
    assert_eq!(
        add_measure(
            &mut store,
            CreateMeasurement { new_title: "m".to_string(), keyresult_id: 1 },
            at(1)
        )
        .err(),
        missing
    );
    assert_eq!(
        add_record(&mut store, ResourceKind::Task, "a".to_string(), None, at(1)).err(),
        missing
    );
    assert!(get_all_tasks(&store).1.is_empty());
}

#[test]
fn listing_paths_write_ids_in_base_ten() {
    assert_eq!(listing_path(ResourceKind::Theme, None), "/");
    assert_eq!(listing_path(ResourceKind::Objective, Some(0)), "/theme/0/objectives");
    assert_eq!(listing_path(ResourceKind::Objective, Some(7)), "/theme/7/objectives");
    assert_eq!(listing_path(ResourceKind::Task, Some(10)), "/project/10/tasks");
    assert_eq!(listing_path(ResourceKind::Task, Some(1203)), "/project/1203/tasks");
    assert_eq!(
        listing_path(ResourceKind::Measurement, Some(i32::MAX)),
        "/keyresult/2147483647/measures"
    );
    assert_eq!(listing_path(ResourceKind::Project, Some(-45)), "/objective/-45/projects");
    assert_eq!(
        listing_path(ResourceKind::Initiative, Some(i32::MIN)),
        "/objective/-2147483648/initiatives"
    );
    let mut text = "id=".to_string();
    push_decimal(&mut text, 90);
    assert_eq!(text, "id=90");
}

#[test]
fn kinds_are_named_in_paths() {
    let names = [
        (ResourceKind::Theme, "theme", "theme"),
        (ResourceKind::Objective, "objective", "objectives"),
        (ResourceKind::KeyResult, "keyresult", "keyresults"),
        (ResourceKind::Initiative, "initiative", "initiatives"),
        (ResourceKind::Project, "project", "projects"),
        (ResourceKind::Task, "task", "tasks"),
        (ResourceKind::Measurement, "measure", "measures"),
    ];
    for (kind, segment, listing) in names {
        assert_eq!(kind.segment(), segment);
        assert_eq!(kind.listing(), listing);
        assert_eq!(ResourceKind::from_segment(segment), Some(kind));
    }
    assert_eq!(ResourceKind::from_segment("themes"), None);
    assert_eq!(ResourceKind::from_segment(""), None);
    assert_eq!(ResourceKind::from_segment("Task"), None);
}

#[test]
fn updates_answer_with_the_changed_row() {
    let mut store = seeded();
    match update_theme(
        &mut store,
        1,
        UpdateTheme { title: "Body".to_string(), status: Status::Completed },
        at(20),
    ) {
        FragmentPayload::RowTheme(row) => {
            assert_eq!(row.theme.title, "Body");
            assert_eq!(row.theme.theme_status, Status::NotStarted);
        }
        other => panic!("{:?}", other),
    }
    match update_objective(&mut store, 1, UpdateObjective { title: "Get strong".to_string() }, at(21)) {
        FragmentPayload::RowObjective(row) => {
            assert_eq!(row.objective.title, "Get strong");
            assert_eq!(row.objective.updated_at, Some(at(21)));
            assert_eq!(row.objective.created_at, Some(at(2)));
        }
        other => panic!("{:?}", other),
    }
    match update_keyresult(&mut store, 1, UpdateKeyResult { title: "Bench 110".to_string() }, at(22)) {
        FragmentPayload::RowKeyResult(row) => assert_eq!(row.keyresult.title, "Bench 110"),
        other => panic!("{:?}", other),
    }
    match update_initiative(
        &mut store,
        1,
        UpdateInitiative { title: "Train daily".to_string(), status: Status::InProgress },
        at(23),
    ) {
        FragmentPayload::RowInitiative(row) => {
            assert_eq!(row.initiative.title, "Train daily");
            assert_eq!(row.initiative.initiative_status, Status::InProgress);
        }
        other => panic!("{:?}", other),
    }
    match update_task(
        &mut store,
        1,
        UpdateTask { title: "Pick lifts".to_string(), status: Status::Completed },
        at(24),
    ) {
        FragmentPayload::RowTask(row) => {
            assert_eq!(row.task.title, "Pick lifts");
            assert_eq!(row.task.task_status, Status::Completed);
            assert_eq!(row.task.updated_at, Some(at(24)));
        }
        other => panic!("{:?}", other),
    }
    match update_project(
        &mut store,
        1,
        UpdateProject { title: "Routine".to_string(), status: Status::NotStarted },
        at(25),
    ) {
        FragmentPayload::RowProject(row) => {
            assert_eq!(row.project.title, "Routine");
            assert_eq!(row.project.project_status, Status::Completed);
        }
        other => panic!("{:?}", other),
    }
    match update_measure(&mut store, 1, UpdateMeasurement { title: "97 kg".to_string() }, at(26)) {
        FragmentPayload::RowMeasurement(row) => assert_eq!(row.measurement.measurement, "97 kg"),
        other => panic!("{:?}", other),
    }
}

#[test]
fn update_of_a_missing_record_answers_with_the_not_found_page() {
    let mut store = seeded();
    let payload = update_task(
        &mut store,
        9,
        UpdateTask { title: "x".to_string(), status: Status::Completed },
        at(1),
    );
    assert!(is_error(&payload, 404, "Task Not Found"));
    let payload = update_record(
        &mut store,
        ResourceKind::Project,
        9,
        Patch { title: None, status: None },
        at(1),
    );
    assert!(is_error(&payload, 404, "Project Not Found"));
    assert_eq!(get_all_tasks(&store).1.len(), 1);
}

#[test]
fn removes_always_answer_that_it_is_done() {
    let mut store = seeded();
    for _ in 0..2 {
        let done = remove_task(&mut store, 1);
        assert_eq!((done.status, done.body.as_str()), (200, ""));
        assert!(is_error(&get_task_row(&store, 1), 404, "Task Not Found"));
    }
    assert_eq!(remove_measure(&mut store, 1).status, 200);
    assert_eq!(remove_initiative(&mut store, 1).status, 200);
    assert_eq!(remove_project(&mut store, 1).status, 200);
    assert_eq!(remove_keyresult(&mut store, 1).status, 200);
    assert_eq!(remove_objective(&mut store, 1).status, 200);
    assert_eq!(remove_theme(&mut store, 1).status, 200);
    assert_eq!(remove_theme(&mut store, 1).status, 200);
    assert_eq!(remove_record(&mut store, ResourceKind::Theme, 1).status, 200);
    assert!(get_all_themes(&store).1.is_empty());
    assert!(get_all_objectives(&store).1.is_empty());
    assert!(get_all_keyresults(&store).1.is_empty());
    assert!(get_all_initiatives(&store).1.is_empty());
    assert!(get_all_projects(&store).1.is_empty());
    assert!(get_all_measures(&store).1.is_empty());
}

#[test]
fn remove_resource_goes_by_the_name_in_the_path() {
    let mut store = seeded();
    let done = remove_resource(&mut store, "measure", 1).unwrap();
    assert_eq!((done.status, done.body.as_str()), (200, ""));
    assert!(get_all_measures(&store).1.is_empty());
    assert!(remove_resource(&mut store, "task", 1).is_ok());
    assert!(get_all_tasks(&store).1.is_empty());
    assert!(remove_resource(&mut store, "task", 1).is_ok());
    assert_eq!(
        remove_resource(&mut store, "measurement", 1).err(),
        Some(CustomError::BadRequest)
    );
    assert_eq!(remove_resource(&mut store, "tasks", 1).err(), Some(CustomError::BadRequest));
    assert_eq!(get_all_themes(&store).1.len(), 1);
    assert!(remove_resource(&mut store, "theme", 1).is_ok());
    assert!(get_all_themes(&store).1.is_empty());
}

#[test]
fn data_lists_answer_with_all_records_and_200() {
    let store = seeded();
    let (code, themes) = get_all_themes(&store);
    assert_eq!(code, 200);
    assert_eq!(themes[0].title, "Physique");
    assert_eq!(get_all_objectives(&store).0, 200);
    assert_eq!(get_all_objectives(&store).1[0].objective_id, 1);
    assert_eq!(get_all_keyresults(&store).1.len(), 1);
    assert_eq!(get_all_initiatives(&store).1.len(), 1);
    assert_eq!(get_all_projects(&store).1[0].project_status, Status::NotStarted);
    assert_eq!(get_all_tasks(&store).1[0].task_status, Status::NotStarted);
    assert_eq!(get_all_measures(&store).1[0].measurement, "95 kg");
}

#[test]
fn templates_are_filled_with_what_is_given() {
    let page = PageThemeTemplate::new("t".to_string(), 3, Status::InProgress, None);
    assert_eq!(page.title, "t");
    assert_eq!(page.theme_id, 3);
    assert_eq!(page.theme_status, Status::InProgress);
    assert!(page.objectives.is_none());
    let page = PageKeyResultTemplate::new("k".to_string(), 4, 5, "o".to_string(), Some(vec![]));
    assert_eq!(page.objective_id, 4);
    assert_eq!(page.keyresult_id, 5);
    assert_eq!(page.objective_title, "o");
    let table = TableTasksTemplate::new(None, 8);
    assert_eq!(table.project_id, 8);
    let error = ErrorTemplate::new(404, "gone".to_string());
    assert_eq!((error.error_code, error.error_message.as_str()), (404, "gone"));
    let store = seeded();
    let theme = get_all_themes(&store).1.remove(0);
    let wrapped = HtmlTemplate(RowThemeTemplate::new(theme));
    assert_eq!(wrapped.0.theme.title, "Physique");
}
