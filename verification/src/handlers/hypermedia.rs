//! The operations that answer the requests of a client with fragments.
//!
//! Each operation is one unit of work on the store. A read answers with
//! the fragment asked for, or with the page that reports that the record
//! is not there. A write that makes a record answers with the id of the
//! record and the path of the list in which it appears; one that changes
//! a record answers with the record as a row; one that takes a record out
//! answers that it is done, whether or not the record was there.

use crate::errors::CustomError;
use crate::model::{
    CreateInitiative, CreateKeyResult, CreateMeasurement, CreateObjective, CreateProject,
    CreateTask, CreateTheme, Patch, ResourceKind, Timestamp, UpdateInitiative, UpdateKeyResult,
    UpdateMeasurement, UpdateObjective, UpdateProject, UpdateTask, UpdateTheme,
};
use crate::paths::{listing_path, spec_listing_path};
use crate::resolver::{answers, error_page, is_error_page, is_row, render, FragmentKind};
use crate::store::Store;
use crate::templater::FragmentPayload;
use vstd::prelude::*;

verus! {

/// What making a record answers with: the id that the record was given, and
/// the path of the list in which it now appears.
#[derive(Debug)]
pub struct Created {
    pub id: i32,
    pub location: String,
}

/// What taking a record out answers with: the HTTP status code 200 and an
/// empty body.
#[derive(Debug)]
pub struct Removed {
    pub status: u16,
    pub body: String,
}

/// The answer that says that a record was taken out.
fn removed() -> (answer: Removed)
    ensures
        answer.status == 200,
        answer.body@ == Seq::<char>::empty(),
{
    Removed { status: 200, body: String::new() }
}

/// Makes a record of the kind under `parent`, at the time `now`.
///
/// Answers with the id of the record and the path of the list in which it
/// appears. Fails with `ParentNotFound` when the record may not be made
/// under `parent`, and with `InternalServerError` when it may but no id is
/// left for its kind; the store is then as it was.
pub fn add_record(
    store: &mut Store,
    kind: ResourceKind,
    title: String,
    parent: Option<i32>,
    now: Timestamp,
) -> (made: Result<Created, CustomError>)
    requires
        old(store).wf(),
    ensures
        final(store).wf(),
        match made {
            Ok(created) => {
                &&& old(store)@.create_error(kind, parent) is None
                &&& created.id == old(store)@.next_id(kind)
                &&& created.location@ == spec_listing_path(kind, parent)
                &&& final(store)@ == old(store)@.created(kind, title, parent, now)
            },
            Err(error) => {
                &&& old(store)@.create_error(kind, parent) == Some(error)
                &&& final(store)@ == old(store)@
            },
        },
{
    match store.create(kind, title, parent, now) {
        Ok(id) => Ok(Created { id, location: listing_path(kind, parent) }),
        Err(error) => Err(error),
    }
}

/// Applies the write `patch`, at the time `now`, to the record of the kind
/// that has the id.
///
/// Answers with the record, as it then stands, as a row; or, where no
/// record of the kind has the id, with the page that says so, and the
/// store is as it was.
pub fn update_record(store: &mut Store, kind: ResourceKind, id: i32, patch: Patch, now: Timestamp) -> (payload:
    FragmentPayload)
    requires
        old(store).wf(),
    ensures
        final(store).wf(),
        final(store)@ == old(store)@.updated(kind, id, patch, now),
        if old(store)@.contains(kind, id) {
            is_row(final(store)@, kind, id, payload)
        } else {
            is_error_page(payload, CustomError::spec_not_found(kind))
        },
        answers(final(store)@, kind, Some(id), FragmentKind::Row, None, payload),
{
    match store.update(kind, id, patch, now) {
        Ok(_) => render(store, kind, Some(id), FragmentKind::Row, None),
        Err(error) => error_page(error),
    }
}

/// Takes out the record of the kind that has the id. The records below it
/// stay. The call answers that it is done whether or not such a record was
/// there: it cannot fail.
pub fn remove_record(store: &mut Store, kind: ResourceKind, id: i32) -> (answer: Removed)
    requires
        old(store).wf(),
    ensures
        final(store).wf(),
        final(store)@ == old(store)@.removed(kind, id),
        answer.status == 200,
        answer.body@ == Seq::<char>::empty(),
{
    store.delete(kind, id);
    removed()
}

/// Takes out the record that has the id, of the kind that `resource`
/// names in a path. Fails with `BadRequest` when `resource` names no kind;
/// the store is then as it was.
pub fn remove_resource(store: &mut Store, resource: &str, resource_id: i32) -> (answer: Result<
    Removed,
    CustomError,
>)
    requires
        old(store).wf(),
    ensures
        final(store).wf(),
        match ResourceKind::spec_from_segment(resource@) {
            Some(kind) => {
                &&& answer matches Ok(done)
                &&& done.status == 200
                &&& done.body@ == Seq::<char>::empty()
                &&& final(store)@ == old(store)@.removed(kind, resource_id)
            },
            None => {
                &&& answer == Err::<Removed, CustomError>(CustomError::BadRequest)
                &&& final(store)@ == old(store)@
            },
        },
{
    match ResourceKind::from_segment(resource) {
        Some(kind) => Ok(remove_record(store, kind, resource_id)),
        None => Err(CustomError::BadRequest),
    }
}

/// The root page: all themes.
pub fn get_root(store: &Store) -> (payload: FragmentPayload)
    requires
        store.wf(),
    ensures
        answers(store@, ResourceKind::Theme, None, FragmentKind::Page, None, payload),
{
    render(store, ResourceKind::Theme, None, FragmentKind::Page, None)
}

/// The list of all themes.
pub fn get_root_themes(store: &Store) -> (payload: FragmentPayload)
    requires
        store.wf(),
    ensures
        answers(store@, ResourceKind::Theme, None, FragmentKind::Table, None, payload),
{
    render(store, ResourceKind::Theme, None, FragmentKind::Table, None)
}

/// The page that answers a request for which there is no route. It reports
/// a malformed request.
pub fn get_error_404_page() -> (payload: FragmentPayload)
    ensures
        is_error_page(payload, CustomError::BadRequest),
{
    error_page(CustomError::BadRequest)
}

/// The page of the theme that has the id, or the page that says that no
/// such record is there.
pub fn get_theme(store: &Store, theme_id: i32) -> (payload: FragmentPayload)
    requires
        store.wf(),
    ensures
        answers(store@, ResourceKind::Theme, Some(theme_id), FragmentKind::Page, None, payload),
{
    render(store, ResourceKind::Theme, Some(theme_id), FragmentKind::Page, None)
}

/// The theme that has the id, as a row; or the page that says that no
/// such record is there.
pub fn get_theme_row(store: &Store, theme_id: i32) -> (payload: FragmentPayload)
    requires
        store.wf(),
    ensures
        answers(store@, ResourceKind::Theme, Some(theme_id), FragmentKind::Row, None, payload),
{
    render(store, ResourceKind::Theme, Some(theme_id), FragmentKind::Row, None)
}

/// The theme that has the id, as a form; or the page that says that no
/// such record is there.
pub fn get_theme_form(store: &Store, theme_id: i32) -> (payload: FragmentPayload)
    requires
        store.wf(),
    ensures
        answers(store@, ResourceKind::Theme, Some(theme_id), FragmentKind::Form, None, payload),
{
    render(store, ResourceKind::Theme, Some(theme_id), FragmentKind::Form, None)
}

/// The list of the objectives under the theme that has the id. It is
/// empty where nothing hangs under that id.
pub fn get_theme_objectives(store: &Store, theme_id: i32) -> (payload: FragmentPayload)
    requires
        store.wf(),
    ensures
        answers(store@, ResourceKind::Objective, None, FragmentKind::Table, Some(theme_id), payload),
{
    render(store, ResourceKind::Objective, None, FragmentKind::Table, Some(theme_id))
}

/// The page of the objective that has the id, or the page that says that no
/// such record is there.
pub fn get_objective(store: &Store, objective_id: i32) -> (payload: FragmentPayload)
    requires
        store.wf(),
    ensures
        answers(store@, ResourceKind::Objective, Some(objective_id), FragmentKind::Page, None, payload),
{
    render(store, ResourceKind::Objective, Some(objective_id), FragmentKind::Page, None)
}

/// The objective that has the id, as a row; or the page that says that no
/// such record is there.
pub fn get_objective_row(store: &Store, objective_id: i32) -> (payload: FragmentPayload)
    requires
        store.wf(),
    ensures
        answers(store@, ResourceKind::Objective, Some(objective_id), FragmentKind::Row, None, payload),
{
    render(store, ResourceKind::Objective, Some(objective_id), FragmentKind::Row, None)
}

/// The objective that has the id, as a form; or the page that says that no
/// such record is there.
pub fn get_objective_form(store: &Store, objective_id: i32) -> (payload: FragmentPayload)
    requires
        store.wf(),
    ensures
        answers(store@, ResourceKind::Objective, Some(objective_id), FragmentKind::Form, None, payload),
{
    render(store, ResourceKind::Objective, Some(objective_id), FragmentKind::Form, None)
}

/// The list of the key results under the objective that has the id. It is
/// empty where nothing hangs under that id.
pub fn get_objective_keyresults(store: &Store, objective_id: i32) -> (payload: FragmentPayload)
    requires
        store.wf(),
    ensures
        answers(store@, ResourceKind::KeyResult, None, FragmentKind::Table, Some(objective_id), payload),
{
    render(store, ResourceKind::KeyResult, None, FragmentKind::Table, Some(objective_id))
}

/// The list of the initiatives under the objective that has the id. It is
/// empty where nothing hangs under that id.
pub fn get_objective_initiatives(store: &Store, objective_id: i32) -> (payload: FragmentPayload)
    requires
        store.wf(),
    ensures
        answers(store@, ResourceKind::Initiative, None, FragmentKind::Table, Some(objective_id), payload),
{
    render(store, ResourceKind::Initiative, None, FragmentKind::Table, Some(objective_id))
}

/// The list of the projects under the objective that has the id. It is
/// empty where nothing hangs under that id.
pub fn get_objective_projects(store: &Store, objective_id: i32) -> (payload: FragmentPayload)
    requires
        store.wf(),
    ensures
        answers(store@, ResourceKind::Project, None, FragmentKind::Table, Some(objective_id), payload),
{
    render(store, ResourceKind::Project, None, FragmentKind::Table, Some(objective_id))
}

/// The page of the key result that has the id, or the page that says that no
/// such record is there.
pub fn get_keyresult(store: &Store, keyresult_id: i32) -> (payload: FragmentPayload)
    requires
        store.wf(),
    ensures
        answers(store@, ResourceKind::KeyResult, Some(keyresult_id), FragmentKind::Page, None, payload),
{
    render(store, ResourceKind::KeyResult, Some(keyresult_id), FragmentKind::Page, None)
}

/// The key result that has the id, as a row; or the page that says that no
/// such record is there.
pub fn get_keyresult_row(store: &Store, keyresult_id: i32) -> (payload: FragmentPayload)
    requires
        store.wf(),
    ensures
        answers(store@, ResourceKind::KeyResult, Some(keyresult_id), FragmentKind::Row, None, payload),
{
    render(store, ResourceKind::KeyResult, Some(keyresult_id), FragmentKind::Row, None)
}

/// The key result that has the id, as a form; or the page that says that no
/// such record is there.
pub fn get_keyresult_form(store: &Store, keyresult_id: i32) -> (payload: FragmentPayload)
    requires
        store.wf(),
    ensures
        answers(store@, ResourceKind::KeyResult, Some(keyresult_id), FragmentKind::Form, None, payload),
{
    render(store, ResourceKind::KeyResult, Some(keyresult_id), FragmentKind::Form, None)
}

/// The list of the measurements under the key result that has the id. It is
/// empty where nothing hangs under that id.
pub fn get_keyresult_measurements(store: &Store, keyresult_id: i32) -> (payload: FragmentPayload)
    requires
        store.wf(),
    ensures
        answers(store@, ResourceKind::Measurement, None, FragmentKind::Table, Some(keyresult_id), payload),
{
    render(store, ResourceKind::Measurement, None, FragmentKind::Table, Some(keyresult_id))
}

/// The page of the initiative that has the id, or the page that says that no
/// such record is there.
pub fn get_initiative(store: &Store, initiative_id: i32) -> (payload: FragmentPayload)
    requires
        store.wf(),
    ensures
        answers(store@, ResourceKind::Initiative, Some(initiative_id), FragmentKind::Page, None, payload),
{
    render(store, ResourceKind::Initiative, Some(initiative_id), FragmentKind::Page, None)
}

/// The initiative that has the id, as a row; or the page that says that no
/// such record is there.
pub fn get_initiative_row(store: &Store, initiative_id: i32) -> (payload: FragmentPayload)
    requires
        store.wf(),
    ensures
        answers(store@, ResourceKind::Initiative, Some(initiative_id), FragmentKind::Row, None, payload),
{
    render(store, ResourceKind::Initiative, Some(initiative_id), FragmentKind::Row, None)
}

/// The initiative that has the id, as a form; or the page that says that no
/// such record is there.
pub fn get_initiative_form(store: &Store, initiative_id: i32) -> (payload: FragmentPayload)
    requires
        store.wf(),
    ensures
        answers(store@, ResourceKind::Initiative, Some(initiative_id), FragmentKind::Form, None, payload),
{
    render(store, ResourceKind::Initiative, Some(initiative_id), FragmentKind::Form, None)
}

/// The page of the project that has the id, or the page that says that no
/// such record is there.
pub fn get_project(store: &Store, project_id: i32) -> (payload: FragmentPayload)
    requires
        store.wf(),
    ensures
        answers(store@, ResourceKind::Project, Some(project_id), FragmentKind::Page, None, payload),
{
    render(store, ResourceKind::Project, Some(project_id), FragmentKind::Page, None)
}

/// The project that has the id, as a row; or the page that says that no
/// such record is there.
pub fn get_project_row(store: &Store, project_id: i32) -> (payload: FragmentPayload)
    requires
        store.wf(),
    ensures
        answers(store@, ResourceKind::Project, Some(project_id), FragmentKind::Row, None, payload),
{
    render(store, ResourceKind::Project, Some(project_id), FragmentKind::Row, None)
}

/// The project that has the id, as a form; or the page that says that no
/// such record is there.
pub fn get_project_form(store: &Store, project_id: i32) -> (payload: FragmentPayload)
    requires
        store.wf(),
    ensures
        answers(store@, ResourceKind::Project, Some(project_id), FragmentKind::Form, None, payload),
{
    render(store, ResourceKind::Project, Some(project_id), FragmentKind::Form, None)
}

/// The list of the tasks under the project that has the id. It is
/// empty where nothing hangs under that id.
pub fn get_project_tasks(store: &Store, project_id: i32) -> (payload: FragmentPayload)
    requires
        store.wf(),
    ensures
        answers(store@, ResourceKind::Task, None, FragmentKind::Table, Some(project_id), payload),
{
    render(store, ResourceKind::Task, None, FragmentKind::Table, Some(project_id))
}

/// The task that has the id, as a row; or the page that says that no
/// such record is there.
pub fn get_task_row(store: &Store, task_id: i32) -> (payload: FragmentPayload)
    requires
        store.wf(),
    ensures
        answers(store@, ResourceKind::Task, Some(task_id), FragmentKind::Row, None, payload),
{
    render(store, ResourceKind::Task, Some(task_id), FragmentKind::Row, None)
}

/// The task that has the id, as a form; or the page that says that no
/// such record is there.
pub fn get_task_form(store: &Store, task_id: i32) -> (payload: FragmentPayload)
    requires
        store.wf(),
    ensures
        answers(store@, ResourceKind::Task, Some(task_id), FragmentKind::Form, None, payload),
{
    render(store, ResourceKind::Task, Some(task_id), FragmentKind::Form, None)
}

/// The measurement that has the id, as a row; or the page that says that no
/// such record is there.
pub fn get_measure_row(store: &Store, measurement_id: i32) -> (payload: FragmentPayload)
    requires
        store.wf(),
    ensures
        answers(store@, ResourceKind::Measurement, Some(measurement_id), FragmentKind::Row, None, payload),
{
    render(store, ResourceKind::Measurement, Some(measurement_id), FragmentKind::Row, None)
}

/// The measurement that has the id, as a form; or the page that says that no
/// such record is there.
pub fn get_measure_form(store: &Store, measurement_id: i32) -> (payload: FragmentPayload)
    requires
        store.wf(),
    ensures
        answers(store@, ResourceKind::Measurement, Some(measurement_id), FragmentKind::Form, None, payload),
{
    render(store, ResourceKind::Measurement, Some(measurement_id), FragmentKind::Form, None)
}

/// Makes a theme from what the client sent, at the time `now`.
///
/// Answers with the id of the record and the path of the list in which it
/// appears. Fails with `ParentNotFound` when the parent is not there, and
/// with `InternalServerError` when no id is left; the store is then as it
/// was.
pub fn add_theme(store: &mut Store, create_theme: CreateTheme, now: Timestamp) -> (made: Result<
    Created,
    CustomError,
>)
    requires
        old(store).wf(),
    ensures
        final(store).wf(),
        match made {
            Ok(created) => {
                &&& old(store)@.create_error(ResourceKind::Theme, None) is None
                &&& created.id == old(store)@.next_id(ResourceKind::Theme)
                &&& created.location@ == spec_listing_path(ResourceKind::Theme, None)
                &&& final(store)@ == old(store)@.created(
                    ResourceKind::Theme,
                    create_theme.new_title,
                    None,
                    now,
                )
            },
            Err(error) => {
                &&& old(store)@.create_error(ResourceKind::Theme, None) == Some(error)
                &&& final(store)@ == old(store)@
            },
        },
{
    let parent = None;
    add_record(store, ResourceKind::Theme, create_theme.new_title, parent, now)
}

/// Makes an objective from what the client sent, at the time `now`.
///
/// Answers with the id of the record and the path of the list in which it
/// appears. Fails with `ParentNotFound` when the parent is not there, and
/// with `InternalServerError` when no id is left; the store is then as it
/// was.
pub fn add_objective(store: &mut Store, create_objective: CreateObjective, now: Timestamp) -> (made: Result<
    Created,
    CustomError,
>)
    requires
        old(store).wf(),
    ensures
        final(store).wf(),
        match made {
            Ok(created) => {
                &&& old(store)@.create_error(ResourceKind::Objective, Some(create_objective.theme_id)) is None
                &&& created.id == old(store)@.next_id(ResourceKind::Objective)
                &&& created.location@ == spec_listing_path(ResourceKind::Objective, Some(create_objective.theme_id))
                &&& final(store)@ == old(store)@.created(
                    ResourceKind::Objective,
                    create_objective.new_title,
                    Some(create_objective.theme_id),
                    now,
                )
            },
            Err(error) => {
                &&& old(store)@.create_error(ResourceKind::Objective, Some(create_objective.theme_id)) == Some(error)
                &&& final(store)@ == old(store)@
            },
        },
{
    let parent = Some(create_objective.theme_id);
    add_record(store, ResourceKind::Objective, create_objective.new_title, parent, now)
}

/// Makes a key result from what the client sent, at the time `now`.
///
/// Answers with the id of the record and the path of the list in which it
/// appears. Fails with `ParentNotFound` when the parent is not there, and
/// with `InternalServerError` when no id is left; the store is then as it
/// was.
pub fn add_keyresult(store: &mut Store, create_keyresult: CreateKeyResult, now: Timestamp) -> (made: Result<
    Created,
    CustomError,
>)
    requires
        old(store).wf(),
    ensures
        final(store).wf(),
        match made {
            Ok(created) => {
                &&& old(store)@.create_error(ResourceKind::KeyResult, Some(create_keyresult.objective_id)) is None
                &&& created.id == old(store)@.next_id(ResourceKind::KeyResult)
                &&& created.location@ == spec_listing_path(ResourceKind::KeyResult, Some(create_keyresult.objective_id))
                &&& final(store)@ == old(store)@.created(
                    ResourceKind::KeyResult,
                    create_keyresult.new_title,
                    Some(create_keyresult.objective_id),
                    now,
                )
            },
            Err(error) => {
                &&& old(store)@.create_error(ResourceKind::KeyResult, Some(create_keyresult.objective_id)) == Some(error)
                &&& final(store)@ == old(store)@
            },
        },
{
    let parent = Some(create_keyresult.objective_id);
    add_record(store, ResourceKind::KeyResult, create_keyresult.new_title, parent, now)
}

/// Makes an initiative from what the client sent, at the time `now`.
///
/// Answers with the id of the record and the path of the list in which it
/// appears. Fails with `ParentNotFound` when the parent is not there, and
/// with `InternalServerError` when no id is left; the store is then as it
/// was.
pub fn add_initiative(store: &mut Store, create_initiative: CreateInitiative, now: Timestamp) -> (made: Result<
    Created,
    CustomError,
>)
    requires
        old(store).wf(),
    ensures
        final(store).wf(),
        match made {
            Ok(created) => {
                &&& old(store)@.create_error(ResourceKind::Initiative, Some(create_initiative.objective_id)) is None
                &&& created.id == old(store)@.next_id(ResourceKind::Initiative)
                &&& created.location@ == spec_listing_path(ResourceKind::Initiative, Some(create_initiative.objective_id))
                &&& final(store)@ == old(store)@.created(
                    ResourceKind::Initiative,
                    create_initiative.new_title,
                    Some(create_initiative.objective_id),
                    now,
                )
            },
            Err(error) => {
                &&& old(store)@.create_error(ResourceKind::Initiative, Some(create_initiative.objective_id)) == Some(error)
                &&& final(store)@ == old(store)@
            },
        },
{
    let parent = Some(create_initiative.objective_id);
    add_record(store, ResourceKind::Initiative, create_initiative.new_title, parent, now)
}

/// Makes a project from what the client sent, at the time `now`.
///
/// Answers with the id of the record and the path of the list in which it
/// appears. Fails with `ParentNotFound` when the parent is not there, and
/// with `InternalServerError` when no id is left; the store is then as it
/// was.
pub fn add_project(store: &mut Store, create_project: CreateProject, now: Timestamp) -> (made: Result<
    Created,
    CustomError,
>)
    requires
        old(store).wf(),
    ensures
        final(store).wf(),
        match made {
            Ok(created) => {
                &&& old(store)@.create_error(ResourceKind::Project, Some(create_project.objective_id)) is None
                &&& created.id == old(store)@.next_id(ResourceKind::Project)
                &&& created.location@ == spec_listing_path(ResourceKind::Project, Some(create_project.objective_id))
                &&& final(store)@ == old(store)@.created(
                    ResourceKind::Project,
                    create_project.new_title,
                    Some(create_project.objective_id),
                    now,
                )
            },
            Err(error) => {
                &&& old(store)@.create_error(ResourceKind::Project, Some(create_project.objective_id)) == Some(error)
                &&& final(store)@ == old(store)@
            },
        },
{
    let parent = Some(create_project.objective_id);
    add_record(store, ResourceKind::Project, create_project.new_title, parent, now)
}

/// Makes a task from what the client sent, at the time `now`.
///
/// Answers with the id of the record and the path of the list in which it
/// appears. Fails with `ParentNotFound` when the parent is not there, and
/// with `InternalServerError` when no id is left; the store is then as it
/// was.
pub fn add_task(store: &mut Store, create_task: CreateTask, now: Timestamp) -> (made: Result<
    Created,
    CustomError,
>)
    requires
        old(store).wf(),
    ensures
        final(store).wf(),
        match made {
            Ok(created) => {
                &&& old(store)@.create_error(ResourceKind::Task, Some(create_task.project_id)) is None
                &&& created.id == old(store)@.next_id(ResourceKind::Task)
                &&& created.location@ == spec_listing_path(ResourceKind::Task, Some(create_task.project_id))
                &&& final(store)@ == old(store)@.created(
                    ResourceKind::Task,
                    create_task.new_title,
                    Some(create_task.project_id),
                    now,
                )
            },
            Err(error) => {
                &&& old(store)@.create_error(ResourceKind::Task, Some(create_task.project_id)) == Some(error)
                &&& final(store)@ == old(store)@
            },
        },
{
    let parent = Some(create_task.project_id);
    add_record(store, ResourceKind::Task, create_task.new_title, parent, now)
}

/// Makes a measurement from what the client sent, at the time `now`.
///
/// Answers with the id of the record and the path of the list in which it
/// appears. Fails with `ParentNotFound` when the parent is not there, and
/// with `InternalServerError` when no id is left; the store is then as it
/// was.
pub fn add_measure(store: &mut Store, create_measurement: CreateMeasurement, now: Timestamp) -> (made: Result<
    Created,
    CustomError,
>)
    requires
        old(store).wf(),
    ensures
        final(store).wf(),
        match made {
            Ok(created) => {
                &&& old(store)@.create_error(ResourceKind::Measurement, Some(create_measurement.keyresult_id)) is None
                &&& created.id == old(store)@.next_id(ResourceKind::Measurement)
                &&& created.location@ == spec_listing_path(ResourceKind::Measurement, Some(create_measurement.keyresult_id))
                &&& final(store)@ == old(store)@.created(
                    ResourceKind::Measurement,
                    create_measurement.new_title,
                    Some(create_measurement.keyresult_id),
                    now,
                )
            },
            Err(error) => {
                &&& old(store)@.create_error(ResourceKind::Measurement, Some(create_measurement.keyresult_id)) == Some(error)
                &&& final(store)@ == old(store)@
            },
        },
{
    let parent = Some(create_measurement.keyresult_id);
    add_record(store, ResourceKind::Measurement, create_measurement.new_title, parent, now)
}

/// Changes the theme that has the id to what the client sent, at the time
/// `now`.
/// The status that the client sent is not applied: that of a theme is
/// derived.
///
/// Answers with the record, as it then stands, as a row; or, where no such
/// record is there, with the page that says so.
pub fn update_theme(store: &mut Store, theme_id: i32, changes: UpdateTheme, now: Timestamp) -> (payload:
    FragmentPayload)
    requires
        old(store).wf(),
    ensures
        final(store).wf(),
        final(store)@ == old(store)@.updated(
            ResourceKind::Theme,
            theme_id,
            (Patch { title: Some(changes.title), status: None }),
            now,
        ),
        answers(
            final(store)@,
            ResourceKind::Theme,
            Some(theme_id),
            FragmentKind::Row,
            None,
            payload,
        ),
{
    let patch = Patch { title: Some(changes.title), status: None };
    update_record(store, ResourceKind::Theme, theme_id, patch, now)
}

/// Changes the objective that has the id to what the client sent, at the time
/// `now`.
///
/// Answers with the record, as it then stands, as a row; or, where no such
/// record is there, with the page that says so.
pub fn update_objective(store: &mut Store, objective_id: i32, changes: UpdateObjective, now: Timestamp) -> (payload:
    FragmentPayload)
    requires
        old(store).wf(),
    ensures
        final(store).wf(),
        final(store)@ == old(store)@.updated(
            ResourceKind::Objective,
            objective_id,
            (Patch { title: Some(changes.title), status: None }),
            now,
        ),
        answers(
            final(store)@,
            ResourceKind::Objective,
            Some(objective_id),
            FragmentKind::Row,
            None,
            payload,
        ),
{
    let patch = Patch { title: Some(changes.title), status: None };
    update_record(store, ResourceKind::Objective, objective_id, patch, now)
}

/// Changes the key result that has the id to what the client sent, at the time
/// `now`.
///
/// Answers with the record, as it then stands, as a row; or, where no such
/// record is there, with the page that says so.
pub fn update_keyresult(store: &mut Store, keyresult_id: i32, changes: UpdateKeyResult, now: Timestamp) -> (payload:
    FragmentPayload)
    requires
        old(store).wf(),
    ensures
        final(store).wf(),
        final(store)@ == old(store)@.updated(
            ResourceKind::KeyResult,
            keyresult_id,
            (Patch { title: Some(changes.title), status: None }),
            now,
        ),
        answers(
            final(store)@,
            ResourceKind::KeyResult,
            Some(keyresult_id),
            FragmentKind::Row,
            None,
            payload,
        ),
{
    let patch = Patch { title: Some(changes.title), status: None };
    update_record(store, ResourceKind::KeyResult, keyresult_id, patch, now)
}

/// Changes the initiative that has the id to what the client sent, at the time
/// `now`.
///
/// Answers with the record, as it then stands, as a row; or, where no such
/// record is there, with the page that says so.
pub fn update_initiative(store: &mut Store, initiative_id: i32, changes: UpdateInitiative, now: Timestamp) -> (payload:
    FragmentPayload)
    requires
        old(store).wf(),
    ensures
        final(store).wf(),
        final(store)@ == old(store)@.updated(
            ResourceKind::Initiative,
            initiative_id,
            (Patch { title: Some(changes.title), status: Some(changes.status) }),
            now,
        ),
        answers(
            final(store)@,
            ResourceKind::Initiative,
            Some(initiative_id),
            FragmentKind::Row,
            None,
            payload,
        ),
{
    let patch = Patch { title: Some(changes.title), status: Some(changes.status) };
    update_record(store, ResourceKind::Initiative, initiative_id, patch, now)
}

/// Changes the project that has the id to what the client sent, at the time
/// `now`.
/// The status that the client sent is not applied: that of a project is
/// derived.
///
/// Answers with the record, as it then stands, as a row; or, where no such
/// record is there, with the page that says so.
pub fn update_project(store: &mut Store, project_id: i32, changes: UpdateProject, now: Timestamp) -> (payload:
    FragmentPayload)
    requires
        old(store).wf(),
    ensures
        final(store).wf(),
        final(store)@ == old(store)@.updated(
            ResourceKind::Project,
            project_id,
            (Patch { title: Some(changes.title), status: None }),
            now,
        ),
        answers(
            final(store)@,
            ResourceKind::Project,
            Some(project_id),
            FragmentKind::Row,
            None,
            payload,
        ),
{
    let patch = Patch { title: Some(changes.title), status: None };
    update_record(store, ResourceKind::Project, project_id, patch, now)
}

/// Changes the task that has the id to what the client sent, at the time
/// `now`.
///
/// Answers with the record, as it then stands, as a row; or, where no such
/// record is there, with the page that says so.
pub fn update_task(store: &mut Store, task_id: i32, changes: UpdateTask, now: Timestamp) -> (payload:
    FragmentPayload)
    requires
        old(store).wf(),
    ensures
        final(store).wf(),
        final(store)@ == old(store)@.updated(
            ResourceKind::Task,
            task_id,
            (Patch { title: Some(changes.title), status: Some(changes.status) }),
            now,
        ),
        answers(
            final(store)@,
            ResourceKind::Task,
            Some(task_id),
            FragmentKind::Row,
            None,
            payload,
        ),
{
    let patch = Patch { title: Some(changes.title), status: Some(changes.status) };
    update_record(store, ResourceKind::Task, task_id, patch, now)
}

/// Changes the measurement that has the id to what the client sent, at the time
/// `now`.
///
/// Answers with the record, as it then stands, as a row; or, where no such
/// record is there, with the page that says so.
pub fn update_measure(store: &mut Store, measure_id: i32, changes: UpdateMeasurement, now: Timestamp) -> (payload:
    FragmentPayload)
    requires
        old(store).wf(),
    ensures
        final(store).wf(),
        final(store)@ == old(store)@.updated(
            ResourceKind::Measurement,
            measure_id,
            (Patch { title: Some(changes.title), status: None }),
            now,
        ),
        answers(
            final(store)@,
            ResourceKind::Measurement,
            Some(measure_id),
            FragmentKind::Row,
            None,
            payload,
        ),
{
    let patch = Patch { title: Some(changes.title), status: None };
    update_record(store, ResourceKind::Measurement, measure_id, patch, now)
}

/// Takes out the theme that has the id. The call answers that it is
/// done whether or not such a record was there.
pub fn remove_theme(store: &mut Store, theme_id: i32) -> (answer: Removed)
    requires
        old(store).wf(),
    ensures
        final(store).wf(),
        final(store)@ == old(store)@.removed(ResourceKind::Theme, theme_id),
        answer.status == 200,
        answer.body@ == Seq::<char>::empty(),
{
    remove_record(store, ResourceKind::Theme, theme_id)
}

/// Takes out the objective that has the id. The call answers that it is
/// done whether or not such a record was there.
pub fn remove_objective(store: &mut Store, objective_id: i32) -> (answer: Removed)
    requires
        old(store).wf(),
    ensures
        final(store).wf(),
        final(store)@ == old(store)@.removed(ResourceKind::Objective, objective_id),
        answer.status == 200,
        answer.body@ == Seq::<char>::empty(),
{
    remove_record(store, ResourceKind::Objective, objective_id)
}

/// Takes out the key result that has the id. The call answers that it is
/// done whether or not such a record was there.
pub fn remove_keyresult(store: &mut Store, keyresult_id: i32) -> (answer: Removed)
    requires
        old(store).wf(),
    ensures
        final(store).wf(),
        final(store)@ == old(store)@.removed(ResourceKind::KeyResult, keyresult_id),
        answer.status == 200,
        answer.body@ == Seq::<char>::empty(),
{
    remove_record(store, ResourceKind::KeyResult, keyresult_id)
}

/// Takes out the initiative that has the id. The call answers that it is
/// done whether or not such a record was there.
pub fn remove_initiative(store: &mut Store, initiative_id: i32) -> (answer: Removed)
    requires
        old(store).wf(),
    ensures
        final(store).wf(),
        final(store)@ == old(store)@.removed(ResourceKind::Initiative, initiative_id),
        answer.status == 200,
        answer.body@ == Seq::<char>::empty(),
{
    remove_record(store, ResourceKind::Initiative, initiative_id)
}

/// Takes out the project that has the id. The call answers that it is
/// done whether or not such a record was there.
pub fn remove_project(store: &mut Store, project_id: i32) -> (answer: Removed)
    requires
        old(store).wf(),
    ensures
        final(store).wf(),
        final(store)@ == old(store)@.removed(ResourceKind::Project, project_id),
        answer.status == 200,
        answer.body@ == Seq::<char>::empty(),
{
    remove_record(store, ResourceKind::Project, project_id)
}

/// Takes out the task that has the id. The call answers that it is
/// done whether or not such a record was there.
pub fn remove_task(store: &mut Store, task_id: i32) -> (answer: Removed)
    requires
        old(store).wf(),
    ensures
        final(store).wf(),
        final(store)@ == old(store)@.removed(ResourceKind::Task, task_id),
        answer.status == 200,
        answer.body@ == Seq::<char>::empty(),
{
    remove_record(store, ResourceKind::Task, task_id)
}

/// Takes out the measurement that has the id. The call answers that it is
/// done whether or not such a record was there.
pub fn remove_measure(store: &mut Store, measure_id: i32) -> (answer: Removed)
    requires
        old(store).wf(),
    ensures
        final(store).wf(),
        final(store)@ == old(store)@.removed(ResourceKind::Measurement, measure_id),
        answer.status == 200,
        answer.body@ == Seq::<char>::empty(),
{
    remove_record(store, ResourceKind::Measurement, measure_id)
}

} // verus!
