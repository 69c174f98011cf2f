//! Which fragment answers which request.
//!
//! A request names a kind of record, a kind of fragment, and the id of a
//! record or of a parent. The resolver reads the store and fills the
//! template of that fragment: a page with the record, the lists of the
//! records under it and the title of the record above it; the list of the
//! records under a parent; one record as a row; or one record as a form.
//! The title of the record above is looked up once, under the parent id
//! that the record carries; it is empty where that parent is gone.

use crate::errors::CustomError;
use crate::model::ResourceKind;
use crate::store::{Store, StoreView};
use crate::templater::{
    EditRowInitiativeTemplate, EditRowKeyResultTemplate, EditRowMeasurementTemplate,
    EditRowObjectiveTemplate, EditRowProjectTemplate, EditRowTaskTemplate, EditRowThemeTemplate,
    ErrorTemplate, FragmentPayload, PageInitiativeTemplate, PageKeyResultTemplate,
    PageObjectiveTemplate, PageProjectTemplate, PageRootTemplate, PageThemeTemplate,
    RowInitiativeTemplate, RowKeyResultTemplate, RowMeasurementTemplate, RowObjectiveTemplate,
    RowProjectTemplate, RowTaskTemplate, RowThemeTemplate, TableInitiativesTemplate,
    TableKeyResultsTemplate, TableMeasurementsTemplate, TableObjectivesTemplate,
    TableProjectsTemplate, TableTasksTemplate, TableThemesTemplate,
};
use vstd::prelude::*;

verus! {

/// The kinds of fragment.
#[derive(Debug, PartialEq, Eq, Hash, Clone, Copy, Structural)]
pub enum FragmentKind {
    /// A whole page: a record, the records under it, and the title of the
    /// record above it.
    Page,
    /// The list of the records of a kind under a parent.
    Table,
    /// One record, as a row of a list.
    Row,
    /// One record, as a form in which to change it.
    Form,
}

/// The title of the record of the kind that has the id, or nothing where no
/// such record is there.
pub open spec fn title_of(store: StoreView, kind: ResourceKind, id: i32) -> Seq<char> {
    match store.get(kind, id) {
        Some(entity) => entity.spec_title()@,
        None => Seq::empty(),
    }
}

/// Whether pages are served for the kind. A task and a measurement are
/// shown in the page of their parent only.
pub open spec fn has_page(kind: ResourceKind) -> bool {
    kind != ResourceKind::Task && kind != ResourceKind::Measurement
}

/// Why a request cannot be answered, if it cannot.
///
/// A request that names the id of a record that is not there fails with
/// the error that says so for its kind. Otherwise a request is malformed,
/// and fails with `BadRequest`, when it asks for a row or a form without
/// an id, for a page of a kind that has none, for a page without an id of
/// any kind but the theme, whose page without an id is the root page, or
/// for the list of a kind other than the theme without the id of a
/// parent. Every other request is answered: the list under a parent that
/// has no children, or that is not there, is an empty list.
pub open spec fn resolve_error(
    store: StoreView,
    kind: ResourceKind,
    id: Option<i32>,
    fragment_kind: FragmentKind,
    parent_id: Option<i32>,
) -> Option<CustomError> {
    if id is Some && !store.contains(kind, id.unwrap()) {
        Some(CustomError::spec_not_found(kind))
    } else {
        let malformed = match fragment_kind {
            FragmentKind::Page => if id is Some {
                !has_page(kind)
            } else {
                kind != ResourceKind::Theme
            },
            FragmentKind::Table => kind != ResourceKind::Theme && parent_id is None,
            FragmentKind::Row => id is None,
            FragmentKind::Form => id is None,
        };
        if malformed {
            Some(CustomError::BadRequest)
        } else {
            None
        }
    }
}

/// The fragment is the page that reports the error.
pub open spec fn is_error_page(payload: FragmentPayload, error: CustomError) -> bool {
    &&& payload matches FragmentPayload::Error(template)
    &&& template.error_code == error.status_code()
    &&& template.error_message@ == error.message()
}

/// The fragment is the page asked for, filled from the store.
pub open spec fn is_page(
    store: StoreView,
    kind: ResourceKind,
    id: Option<i32>,
    payload: FragmentPayload,
) -> bool {
    match kind {
        ResourceKind::Theme => match id {
            None => {
                &&& payload matches FragmentPayload::PageRoot(template)
                &&& template.themes matches Some(themes)
                &&& themes@ == store.themes.rows
            },
            Some(theme_id) => {
                &&& store.themes.find(theme_id) matches Some(theme)
                &&& payload matches FragmentPayload::PageTheme(template)
                &&& template.title == theme.title
                &&& template.theme_id == theme_id
                &&& template.theme_status == theme.theme_status
                &&& template.objectives matches Some(objectives)
                &&& objectives@ == store.objectives.children(theme_id)
            },
        },
        ResourceKind::Objective => {
            &&& id matches Some(objective_id)
            &&& store.objectives.find(objective_id) matches Some(objective)
            &&& payload matches FragmentPayload::PageObjective(template)
            &&& template.title == objective.title
            &&& template.objective_id == objective_id
            &&& template.theme_id == objective.theme_id
            &&& template.theme_title@ == title_of(store, ResourceKind::Theme, objective.theme_id)
            &&& template.keyresults matches Some(keyresults)
            &&& keyresults@ == store.keyresults.children(objective_id)
            &&& template.initiatives matches Some(initiatives)
            &&& initiatives@ == store.initiatives.children(objective_id)
            &&& template.projects matches Some(projects)
            &&& projects@ == store.projects.children(objective_id)
        },
        ResourceKind::KeyResult => {
            &&& id matches Some(keyresult_id)
            &&& store.keyresults.find(keyresult_id) matches Some(keyresult)
            &&& payload matches FragmentPayload::PageKeyResult(template)
            &&& template.title == keyresult.title
            &&& template.keyresult_id == keyresult_id
            &&& template.objective_id == keyresult.objective_id
            &&& template.objective_title@ == title_of(
                store,
                ResourceKind::Objective,
                keyresult.objective_id,
            )
            &&& template.measurements matches Some(measurements)
            &&& measurements@ == store.measurements.children(keyresult_id)
        },
        ResourceKind::Initiative => {
            &&& id matches Some(initiative_id)
            &&& store.initiatives.find(initiative_id) matches Some(initiative)
            &&& payload matches FragmentPayload::PageInitiative(template)
            &&& template.title == initiative.title
            &&& template.objective_id == initiative.objective_id
            &&& template.objective_title@ == title_of(
                store,
                ResourceKind::Objective,
                initiative.objective_id,
            )
        },
        ResourceKind::Project => {
            &&& id matches Some(project_id)
            &&& store.projects.find(project_id) matches Some(project)
            &&& payload matches FragmentPayload::PageProject(template)
            &&& template.title == project.title
            &&& template.project_id == project_id
            &&& template.objective_id == project.objective_id
            &&& template.objective_title@ == title_of(
                store,
                ResourceKind::Objective,
                project.objective_id,
            )
            &&& template.tasks matches Some(tasks)
            &&& tasks@ == store.tasks.children(project_id)
        },
        _ => false,
    }
}

/// The fragment is the list asked for, filled from the store: all themes,
/// or the records of the kind under the parent, in ascending order of id.
pub open spec fn is_table(
    store: StoreView,
    kind: ResourceKind,
    parent_id: Option<i32>,
    payload: FragmentPayload,
) -> bool {
    match kind {
        ResourceKind::Theme => {
            &&& payload matches FragmentPayload::TableThemes(template)
            &&& template.themes matches Some(themes)
            &&& themes@ == store.themes.rows
        },
        ResourceKind::Objective => {
            &&& parent_id matches Some(theme_id)
            &&& payload matches FragmentPayload::TableObjectives(template)
            &&& template.objectives matches Some(objectives)
            &&& objectives@ == store.objectives.children(theme_id)
            &&& template.theme_id == theme_id
        },
        ResourceKind::KeyResult => {
            &&& parent_id matches Some(objective_id)
            &&& payload matches FragmentPayload::TableKeyResults(template)
            &&& template.keyresults matches Some(keyresults)
            &&& keyresults@ == store.keyresults.children(objective_id)
            &&& template.objective_id == objective_id
        },
        ResourceKind::Initiative => {
            &&& parent_id matches Some(objective_id)
            &&& payload matches FragmentPayload::TableInitiatives(template)
            &&& template.initiatives matches Some(initiatives)
            &&& initiatives@ == store.initiatives.children(objective_id)
            &&& template.objective_id == objective_id
        },
        ResourceKind::Project => {
            &&& parent_id matches Some(objective_id)
            &&& payload matches FragmentPayload::TableProjects(template)
            &&& template.projects matches Some(projects)
            &&& projects@ == store.projects.children(objective_id)
            &&& template.objective_id == objective_id
        },
        ResourceKind::Task => {
            &&& parent_id matches Some(project_id)
            &&& payload matches FragmentPayload::TableTasks(template)
            &&& template.tasks matches Some(tasks)
            &&& tasks@ == store.tasks.children(project_id)
            &&& template.project_id == project_id
        },
        ResourceKind::Measurement => {
            &&& parent_id matches Some(keyresult_id)
            &&& payload matches FragmentPayload::TableMeasurements(template)
            &&& template.measurements matches Some(measurements)
            &&& measurements@ == store.measurements.children(keyresult_id)
            &&& template.keyresult_id == keyresult_id
        },
    }
}

/// The fragment is the row asked for: the record as the store holds it.
pub open spec fn is_row(store: StoreView, kind: ResourceKind, id: i32, payload: FragmentPayload)
    -> bool {
    match kind {
        ResourceKind::Theme => {
            &&& payload matches FragmentPayload::RowTheme(template)
            &&& store.themes.find(id) == Some(template.theme)
        },
        ResourceKind::Objective => {
            &&& payload matches FragmentPayload::RowObjective(template)
            &&& store.objectives.find(id) == Some(template.objective)
        },
        ResourceKind::KeyResult => {
            &&& payload matches FragmentPayload::RowKeyResult(template)
            &&& store.keyresults.find(id) == Some(template.keyresult)
        },
        ResourceKind::Initiative => {
            &&& payload matches FragmentPayload::RowInitiative(template)
            &&& store.initiatives.find(id) == Some(template.initiative)
        },
        ResourceKind::Project => {
            &&& payload matches FragmentPayload::RowProject(template)
            &&& store.projects.find(id) == Some(template.project)
        },
        ResourceKind::Task => {
            &&& payload matches FragmentPayload::RowTask(template)
            &&& store.tasks.find(id) == Some(template.task)
        },
        ResourceKind::Measurement => {
            &&& payload matches FragmentPayload::RowMeasurement(template)
            &&& store.measurements.find(id) == Some(template.measurement)
        },
    }
}

/// The fragment is the form asked for: the record as the store holds it.
pub open spec fn is_form(store: StoreView, kind: ResourceKind, id: i32, payload: FragmentPayload)
    -> bool {
    match kind {
        ResourceKind::Theme => {
            &&& payload matches FragmentPayload::EditRowTheme(template)
            &&& store.themes.find(id) == Some(template.theme)
        },
        ResourceKind::Objective => {
            &&& payload matches FragmentPayload::EditRowObjective(template)
            &&& store.objectives.find(id) == Some(template.objective)
        },
        ResourceKind::KeyResult => {
            &&& payload matches FragmentPayload::EditRowKeyResult(template)
            &&& store.keyresults.find(id) == Some(template.keyresult)
        },
        ResourceKind::Initiative => {
            &&& payload matches FragmentPayload::EditRowInitiative(template)
            &&& store.initiatives.find(id) == Some(template.initiative)
        },
        ResourceKind::Project => {
            &&& payload matches FragmentPayload::EditRowProject(template)
            &&& store.projects.find(id) == Some(template.project)
        },
        ResourceKind::Task => {
            &&& payload matches FragmentPayload::EditRowTask(template)
            &&& store.tasks.find(id) == Some(template.task)
        },
        ResourceKind::Measurement => {
            &&& payload matches FragmentPayload::EditRowMeasurement(template)
            &&& store.measurements.find(id) == Some(template.measurement)
        },
    }
}

/// The fragment is the one that the request asks for, filled from the
/// store.
pub open spec fn is_fragment(
    store: StoreView,
    kind: ResourceKind,
    id: Option<i32>,
    fragment_kind: FragmentKind,
    parent_id: Option<i32>,
    payload: FragmentPayload,
) -> bool {
    match fragment_kind {
        FragmentKind::Page => is_page(store, kind, id, payload),
        FragmentKind::Table => is_table(store, kind, parent_id, payload),
        FragmentKind::Row => id is Some && is_row(store, kind, id.unwrap(), payload),
        FragmentKind::Form => id is Some && is_form(store, kind, id.unwrap(), payload),
    }
}

/// The fragment answers the request: it is the fragment asked for, or,
/// where the request cannot be answered, the page that reports why.
pub open spec fn answers(
    store: StoreView,
    kind: ResourceKind,
    id: Option<i32>,
    fragment_kind: FragmentKind,
    parent_id: Option<i32>,
    payload: FragmentPayload,
) -> bool {
    match resolve_error(store, kind, id, fragment_kind, parent_id) {
        Some(error) => is_error_page(payload, error),
        None => is_fragment(store, kind, id, fragment_kind, parent_id, payload),
    }
}

/// The title of the record of the kind that has the id, or an empty title
/// where no such record is there.
fn parent_title(store: &Store, kind: ResourceKind, id: i32) -> (title: String)
    requires
        store.wf(),
    ensures
        title@ == title_of(store@, kind, id),
{
    match store.get(kind, id) {
        Ok(entity) => entity.title(),
        Err(_) => String::new(),
    }
}

/// The page of the record of the kind that has the id, or the root page
/// where no id is given.
fn resolve_page(store: &Store, kind: ResourceKind, id: Option<i32>) -> (payload: FragmentPayload)
    requires
        store.wf(),
        resolve_error(store@, kind, id, FragmentKind::Page, None) is None,
    ensures
        is_page(store@, kind, id, payload),
{
    match kind {
        ResourceKind::Theme => match id {
            None => FragmentPayload::PageRoot(PageRootTemplate::new(Some(store.themes().all()))),
            Some(theme_id) => {
                let theme = store.themes().get(theme_id).unwrap();
                FragmentPayload::PageTheme(
                    PageThemeTemplate::new(
                        theme.title,
                        theme_id,
                        theme.theme_status,
                        Some(store.objectives().children(theme_id)),
                    ),
                )
            },
        },
        ResourceKind::Objective => {
            let objective_id = id.unwrap();
            let objective = store.objectives().get(objective_id).unwrap();
            let theme_title = parent_title(store, ResourceKind::Theme, objective.theme_id);
            FragmentPayload::PageObjective(
                PageObjectiveTemplate::new(
                    objective.title,
                    objective_id,
                    objective.theme_id,
                    theme_title,
                    Some(store.keyresults().children(objective_id)),
                    Some(store.initiatives().children(objective_id)),
                    Some(store.projects().children(objective_id)),
                ),
            )
        },
        ResourceKind::KeyResult => {
            let keyresult_id = id.unwrap();
            let keyresult = store.keyresults().get(keyresult_id).unwrap();
            let objective_title = parent_title(
                store,
                ResourceKind::Objective,
                keyresult.objective_id,
            );
            FragmentPayload::PageKeyResult(
                PageKeyResultTemplate::new(
                    keyresult.title,
                    keyresult.objective_id,
                    keyresult_id,
                    objective_title,
                    Some(store.measurements().children(keyresult_id)),
                ),
            )
        },
        ResourceKind::Initiative => {
            let initiative = store.initiatives().get(id.unwrap()).unwrap();
            let objective_title = parent_title(
                store,
                ResourceKind::Objective,
                initiative.objective_id,
            );
            FragmentPayload::PageInitiative(
                PageInitiativeTemplate::new(
                    initiative.title,
                    initiative.objective_id,
                    objective_title,
                ),
            )
        },
        _ => {
            let project_id = id.unwrap();
            let project = store.projects().get(project_id).unwrap();
            let objective_title = parent_title(
                store,
                ResourceKind::Objective,
                project.objective_id,
            );
            FragmentPayload::PageProject(
                PageProjectTemplate::new(
                    project.title,
                    project_id,
                    project.objective_id,
                    objective_title,
                    Some(store.tasks().children(project_id)),
                ),
            )
        },
    }
}

/// The list of all themes, or of the records of the kind under the parent.
fn resolve_table(store: &Store, kind: ResourceKind, parent_id: Option<i32>) -> (payload:
    FragmentPayload)
    requires
        kind != ResourceKind::Theme ==> parent_id is Some,
    ensures
        is_table(store@, kind, parent_id, payload),
{
    match kind {
        ResourceKind::Theme => FragmentPayload::TableThemes(
            TableThemesTemplate::new(Some(store.themes().all())),
        ),
        ResourceKind::Objective => {
            let theme_id = parent_id.unwrap();
            FragmentPayload::TableObjectives(
                TableObjectivesTemplate::new(Some(store.objectives().children(theme_id)), theme_id),
            )
        },
        ResourceKind::KeyResult => {
            let objective_id = parent_id.unwrap();
            FragmentPayload::TableKeyResults(
                TableKeyResultsTemplate::new(Some(store.keyresults().children(objective_id)), objective_id),
            )
        },
        ResourceKind::Initiative => {
            let objective_id = parent_id.unwrap();
            FragmentPayload::TableInitiatives(
                TableInitiativesTemplate::new(Some(store.initiatives().children(objective_id)), objective_id),
            )
        },
        ResourceKind::Project => {
            let objective_id = parent_id.unwrap();
            FragmentPayload::TableProjects(
                TableProjectsTemplate::new(Some(store.projects().children(objective_id)), objective_id),
            )
        },
        ResourceKind::Task => {
            let project_id = parent_id.unwrap();
            FragmentPayload::TableTasks(
                TableTasksTemplate::new(Some(store.tasks().children(project_id)), project_id),
            )
        },
        ResourceKind::Measurement => {
            let keyresult_id = parent_id.unwrap();
            FragmentPayload::TableMeasurements(
                TableMeasurementsTemplate::new(Some(store.measurements().children(keyresult_id)), keyresult_id),
            )
        },
    }
}

/// The record of the kind that has the id, as a row.
fn resolve_row(store: &Store, kind: ResourceKind, id: i32) -> (payload: FragmentPayload)
    requires
        store.wf(),
        store@.contains(kind, id),
    ensures
        is_row(store@, kind, id, payload),
{
    match kind {
        ResourceKind::Theme => FragmentPayload::RowTheme(
            RowThemeTemplate::new(store.themes().get(id).unwrap()),
        ),
        ResourceKind::Objective => FragmentPayload::RowObjective(
            RowObjectiveTemplate::new(store.objectives().get(id).unwrap()),
        ),
        ResourceKind::KeyResult => FragmentPayload::RowKeyResult(
            RowKeyResultTemplate::new(store.keyresults().get(id).unwrap()),
        ),
        ResourceKind::Initiative => FragmentPayload::RowInitiative(
            RowInitiativeTemplate::new(store.initiatives().get(id).unwrap()),
        ),
        ResourceKind::Project => FragmentPayload::RowProject(
            RowProjectTemplate::new(store.projects().get(id).unwrap()),
        ),
        ResourceKind::Task => FragmentPayload::RowTask(
            RowTaskTemplate::new(store.tasks().get(id).unwrap()),
        ),
        ResourceKind::Measurement => FragmentPayload::RowMeasurement(
            RowMeasurementTemplate::new(store.measurements().get(id).unwrap()),
        ),
    }
}

/// The record of the kind that has the id, as a form.
fn resolve_form(store: &Store, kind: ResourceKind, id: i32) -> (payload: FragmentPayload)
    requires
        store.wf(),
        store@.contains(kind, id),
    ensures
        is_form(store@, kind, id, payload),
{
    match kind {
        ResourceKind::Theme => FragmentPayload::EditRowTheme(
            EditRowThemeTemplate::new(store.themes().get(id).unwrap()),
        ),
        ResourceKind::Objective => FragmentPayload::EditRowObjective(
            EditRowObjectiveTemplate::new(store.objectives().get(id).unwrap()),
        ),
        ResourceKind::KeyResult => FragmentPayload::EditRowKeyResult(
            EditRowKeyResultTemplate::new(store.keyresults().get(id).unwrap()),
        ),
        ResourceKind::Initiative => FragmentPayload::EditRowInitiative(
            EditRowInitiativeTemplate::new(store.initiatives().get(id).unwrap()),
        ),
        ResourceKind::Project => FragmentPayload::EditRowProject(
            EditRowProjectTemplate::new(store.projects().get(id).unwrap()),
        ),
        ResourceKind::Task => FragmentPayload::EditRowTask(
            EditRowTaskTemplate::new(store.tasks().get(id).unwrap()),
        ),
        ResourceKind::Measurement => FragmentPayload::EditRowMeasurement(
            EditRowMeasurementTemplate::new(store.measurements().get(id).unwrap()),
        ),
    }
}

/// The fragment that a request asks for, filled from the store; or why the
/// request cannot be answered.
pub fn resolve(
    store: &Store,
    kind: ResourceKind,
    id: Option<i32>,
    fragment_kind: FragmentKind,
    parent_id: Option<i32>,
) -> (resolved: Result<FragmentPayload, CustomError>)
    requires
        store.wf(),
    ensures
        match resolved {
            Ok(payload) => {
                &&& resolve_error(store@, kind, id, fragment_kind, parent_id) is None
                &&& is_fragment(store@, kind, id, fragment_kind, parent_id, payload)
            },
            Err(error) => resolve_error(store@, kind, id, fragment_kind, parent_id) == Some(error),
        },
{
    match id {
        Some(id) => {
            if !store.contains(kind, id) {
                return Err(CustomError::not_found(kind));
            }
        },
        None => {},
    }
    match fragment_kind {
        FragmentKind::Page => {
            let malformed = match id {
                Some(_) => match kind {
                    ResourceKind::Task | ResourceKind::Measurement => true,
                    _ => false,
                },
                None => match kind {
                    ResourceKind::Theme => false,
                    _ => true,
                },
            };
            if malformed {
                Err(CustomError::BadRequest)
            } else {
                Ok(resolve_page(store, kind, id))
            }
        },
        FragmentKind::Table => {
            let malformed = match kind {
                ResourceKind::Theme => false,
                _ => parent_id.is_none(),
            };
            if malformed {
                Err(CustomError::BadRequest)
            } else {
                Ok(resolve_table(store, kind, parent_id))
            }
        },
        FragmentKind::Row => match id {
            Some(id) => Ok(resolve_row(store, kind, id)),
            None => Err(CustomError::BadRequest),
        },
        FragmentKind::Form => match id {
            Some(id) => Ok(resolve_form(store, kind, id)),
            None => Err(CustomError::BadRequest),
        },
    }
}

/// The page that reports the error.
pub fn error_page(error: CustomError) -> (payload: FragmentPayload)
    ensures
        is_error_page(payload, error),
{
    let (error_code, error_message) = error.get_error_message();
    FragmentPayload::Error(ErrorTemplate::new(error_code, error_message))
}

/// The fragment that answers a request: the fragment asked for, or, where
/// the request cannot be answered, the page that reports why. A record
/// that is not there is answered with the page that says so, not with a
/// failure.
pub fn render(
    store: &Store,
    kind: ResourceKind,
    id: Option<i32>,
    fragment_kind: FragmentKind,
    parent_id: Option<i32>,
) -> (payload: FragmentPayload)
    requires
        store.wf(),
    ensures
        answers(store@, kind, id, fragment_kind, parent_id, payload),
{
    match resolve(store, kind, id, fragment_kind, parent_id) {
        Ok(payload) => payload,
        Err(error) => error_page(error),
    }
}

} // verus!
