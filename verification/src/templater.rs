//! What a page, or a fragment of one, is filled with.
//!
//! Each template holds the data of one fragment: a whole page, the list of
//! the records under a parent, one record as a row of such a list, or one
//! record as a form in which to change it. A list that could not be read
//! is `None`; one that was read and holds nothing is `Some` of an empty
//! list.

use crate::model::{
    Initiative, KeyResult, Measurement, Objective, Project, Status, Task, Theme,
};
use vstd::prelude::*;

verus! {

/// The root page: all themes.
#[derive(Debug)]
pub struct PageRootTemplate {
    pub themes: Option<Vec<Theme>>,
}

impl PageRootTemplate {
    /// The template filled with what is given.
    pub fn new(themes: Option<Vec<Theme>>) -> (template: PageRootTemplate)
        ensures
            template == (PageRootTemplate { themes }),
    {
        PageRootTemplate { themes }
    }
}

/// The page of a theme: the theme and the objectives under it.
#[derive(Debug)]
pub struct PageThemeTemplate {
    pub title: String,
    pub theme_id: i32,
    pub theme_status: Status,
    pub objectives: Option<Vec<Objective>>,
}

impl PageThemeTemplate {
    /// The template filled with what is given.
    pub fn new(
        title: String,
        theme_id: i32,
        theme_status: Status,
        objectives: Option<Vec<Objective>>,
    ) -> (template: PageThemeTemplate)
        ensures
            template == (PageThemeTemplate { title, theme_id, theme_status, objectives }),
    {
        PageThemeTemplate { title, theme_id, theme_status, objectives }
    }
}

/// The list of all themes.
#[derive(Debug)]
pub struct TableThemesTemplate {
    pub themes: Option<Vec<Theme>>,
}

impl TableThemesTemplate {
    /// The template filled with what is given.
    pub fn new(themes: Option<Vec<Theme>>) -> (template: TableThemesTemplate)
        ensures
            template == (TableThemesTemplate { themes }),
    {
        TableThemesTemplate { themes }
    }
}

/// One theme, as a row of a list.
#[derive(Debug)]
pub struct RowThemeTemplate {
    pub theme: Theme,
}

impl RowThemeTemplate {
    /// The template filled with what is given.
    pub fn new(theme: Theme) -> (template: RowThemeTemplate)
        ensures
            template == (RowThemeTemplate { theme }),
    {
        RowThemeTemplate { theme }
    }
}

/// One theme, as a form in which to change it.
#[derive(Debug)]
pub struct EditRowThemeTemplate {
    pub theme: Theme,
}

impl EditRowThemeTemplate {
    /// The template filled with what is given.
    pub fn new(theme: Theme) -> (template: EditRowThemeTemplate)
        ensures
            template == (EditRowThemeTemplate { theme }),
    {
        EditRowThemeTemplate { theme }
    }
}

/// The page of an objective: the objective, the theme it hangs under, and
/// the key results, initiatives and projects under it.
#[derive(Debug)]
pub struct PageObjectiveTemplate {
    pub title: String,
    pub objective_id: i32,
    pub theme_id: i32,
    pub theme_title: String,
    pub keyresults: Option<Vec<KeyResult>>,
    pub initiatives: Option<Vec<Initiative>>,
    pub projects: Option<Vec<Project>>,
}

impl PageObjectiveTemplate {
    /// The template filled with what is given.
    pub fn new(
        title: String,
        objective_id: i32,
        theme_id: i32,
        theme_title: String,
        keyresults: Option<Vec<KeyResult>>,
        initiatives: Option<Vec<Initiative>>,
        projects: Option<Vec<Project>>,
    ) -> (template: PageObjectiveTemplate)
        ensures
            template == (PageObjectiveTemplate { title, objective_id, theme_id, theme_title, keyresults, initiatives, projects }),
    {
        PageObjectiveTemplate { title, objective_id, theme_id, theme_title, keyresults, initiatives, projects }
    }
}

/// The list of the objectives under a theme.
#[derive(Debug)]
pub struct TableObjectivesTemplate {
    pub objectives: Option<Vec<Objective>>,
    pub theme_id: i32,
}

impl TableObjectivesTemplate {
    /// The template filled with what is given.
    pub fn new(objectives: Option<Vec<Objective>>, theme_id: i32) -> (template: TableObjectivesTemplate)
        ensures
            template == (TableObjectivesTemplate { objectives, theme_id }),
    {
        TableObjectivesTemplate { objectives, theme_id }
    }
}

/// One objective, as a row of a list.
#[derive(Debug)]
pub struct RowObjectiveTemplate {
    pub objective: Objective,
}

impl RowObjectiveTemplate {
    /// The template filled with what is given.
    pub fn new(objective: Objective) -> (template: RowObjectiveTemplate)
        ensures
            template == (RowObjectiveTemplate { objective }),
    {
        RowObjectiveTemplate { objective }
    }
}

/// One objective, as a form in which to change it.
#[derive(Debug)]
pub struct EditRowObjectiveTemplate {
    pub objective: Objective,
}

impl EditRowObjectiveTemplate {
    /// The template filled with what is given.
    pub fn new(objective: Objective) -> (template: EditRowObjectiveTemplate)
        ensures
            template == (EditRowObjectiveTemplate { objective }),
    {
        EditRowObjectiveTemplate { objective }
    }
}

/// The page of a key result: the key result, the objective it hangs under,
/// and the measurements under it.
#[derive(Debug)]
pub struct PageKeyResultTemplate {
    pub title: String,
    pub keyresult_id: i32,
    pub objective_id: i32,
    pub objective_title: String,
    pub measurements: Option<Vec<Measurement>>,
}

impl PageKeyResultTemplate {
    /// The template filled with what is given.
    pub fn new(
        title: String,
        objective_id: i32,
        keyresult_id: i32,
        objective_title: String,
        measurements: Option<Vec<Measurement>>,
    ) -> (template: PageKeyResultTemplate)
        ensures
            template == (PageKeyResultTemplate { title, keyresult_id, objective_id, objective_title, measurements }),
    {
        PageKeyResultTemplate { title, keyresult_id, objective_id, objective_title, measurements }
    }
}

/// The list of the key results under an objective.
#[derive(Debug)]
pub struct TableKeyResultsTemplate {
    pub keyresults: Option<Vec<KeyResult>>,
    pub objective_id: i32,
}

impl TableKeyResultsTemplate {
    /// The template filled with what is given.
    pub fn new(keyresults: Option<Vec<KeyResult>>, objective_id: i32) -> (template: TableKeyResultsTemplate)
        ensures
            template == (TableKeyResultsTemplate { keyresults, objective_id }),
    {
        TableKeyResultsTemplate { keyresults, objective_id }
    }
}

/// One key result, as a row of a list.
#[derive(Debug)]
pub struct RowKeyResultTemplate {
    pub keyresult: KeyResult,
}

impl RowKeyResultTemplate {
    /// The template filled with what is given.
    pub fn new(keyresult: KeyResult) -> (template: RowKeyResultTemplate)
        ensures
            template == (RowKeyResultTemplate { keyresult }),
    {
        RowKeyResultTemplate { keyresult }
    }
}

/// One key result, as a form in which to change it.
#[derive(Debug)]
pub struct EditRowKeyResultTemplate {
    pub keyresult: KeyResult,
}

impl EditRowKeyResultTemplate {
    /// The template filled with what is given.
    pub fn new(keyresult: KeyResult) -> (template: EditRowKeyResultTemplate)
        ensures
            template == (EditRowKeyResultTemplate { keyresult }),
    {
        EditRowKeyResultTemplate { keyresult }
    }
}

/// The page of an initiative: the initiative and the objective it hangs
/// under.
#[derive(Debug)]
pub struct PageInitiativeTemplate {
    pub title: String,
    pub objective_id: i32,
    pub objective_title: String,
}

impl PageInitiativeTemplate {
    /// The template filled with what is given.
    pub fn new(title: String, objective_id: i32, objective_title: String) -> (template: PageInitiativeTemplate)
        ensures
            template == (PageInitiativeTemplate { title, objective_id, objective_title }),
    {
        PageInitiativeTemplate { title, objective_id, objective_title }
    }
}

/// The list of the initiatives under an objective.
#[derive(Debug)]
pub struct TableInitiativesTemplate {
    pub initiatives: Option<Vec<Initiative>>,
    pub objective_id: i32,
}

impl TableInitiativesTemplate {
    /// The template filled with what is given.
    pub fn new(initiatives: Option<Vec<Initiative>>, objective_id: i32) -> (template: TableInitiativesTemplate)
        ensures
            template == (TableInitiativesTemplate { initiatives, objective_id }),
    {
        TableInitiativesTemplate { initiatives, objective_id }
    }
}

/// One initiative, as a row of a list.
#[derive(Debug)]
pub struct RowInitiativeTemplate {
    pub initiative: Initiative,
}

impl RowInitiativeTemplate {
    /// The template filled with what is given.
    pub fn new(initiative: Initiative) -> (template: RowInitiativeTemplate)
        ensures
            template == (RowInitiativeTemplate { initiative }),
    {
        RowInitiativeTemplate { initiative }
    }
}

/// One initiative, as a form in which to change it.
#[derive(Debug)]
pub struct EditRowInitiativeTemplate {
    pub initiative: Initiative,
}

impl EditRowInitiativeTemplate {
    /// The template filled with what is given.
    pub fn new(initiative: Initiative) -> (template: EditRowInitiativeTemplate)
        ensures
            template == (EditRowInitiativeTemplate { initiative }),
    {
        EditRowInitiativeTemplate { initiative }
    }
}

/// The page of a project: the project, the objective it hangs under, and
/// the tasks under it.
#[derive(Debug)]
pub struct PageProjectTemplate {
    pub title: String,
    pub project_id: i32,
    pub objective_id: i32,
    pub objective_title: String,
    pub tasks: Option<Vec<Task>>,
}

impl PageProjectTemplate {
    /// The template filled with what is given.
    pub fn new(
        title: String,
        project_id: i32,
        objective_id: i32,
        objective_title: String,
        tasks: Option<Vec<Task>>,
    ) -> (template: PageProjectTemplate)
        ensures
            template == (PageProjectTemplate { title, project_id, objective_id, objective_title, tasks }),
    {
        PageProjectTemplate { title, project_id, objective_id, objective_title, tasks }
    }
}

/// The list of the projects under an objective.
#[derive(Debug)]
pub struct TableProjectsTemplate {
    pub projects: Option<Vec<Project>>,
    pub objective_id: i32,
}

impl TableProjectsTemplate {
    /// The template filled with what is given.
    pub fn new(projects: Option<Vec<Project>>, objective_id: i32) -> (template: TableProjectsTemplate)
        ensures
            template == (TableProjectsTemplate { projects, objective_id }),
    {
        TableProjectsTemplate { projects, objective_id }
    }
}

/// One project, as a row of a list.
#[derive(Debug)]
pub struct RowProjectTemplate {
    pub project: Project,
}

impl RowProjectTemplate {
    /// The template filled with what is given.
    pub fn new(project: Project) -> (template: RowProjectTemplate)
        ensures
            template == (RowProjectTemplate { project }),
    {
        RowProjectTemplate { project }
    }
}

/// One project, as a form in which to change it.
#[derive(Debug)]
pub struct EditRowProjectTemplate {
    pub project: Project,
}

impl EditRowProjectTemplate {
    /// The template filled with what is given.
    pub fn new(project: Project) -> (template: EditRowProjectTemplate)
        ensures
            template == (EditRowProjectTemplate { project }),
    {
        EditRowProjectTemplate { project }
    }
}

/// The list of the measurements under a key result.
#[derive(Debug)]
pub struct TableMeasurementsTemplate {
    pub measurements: Option<Vec<Measurement>>,
    pub keyresult_id: i32,
}

impl TableMeasurementsTemplate {
    /// The template filled with what is given.
    pub fn new(measurements: Option<Vec<Measurement>>, keyresult_id: i32) -> (template: TableMeasurementsTemplate)
        ensures
            template == (TableMeasurementsTemplate { measurements, keyresult_id }),
    {
        TableMeasurementsTemplate { measurements, keyresult_id }
    }
}

/// One measurement, as a row of a list.
#[derive(Debug)]
pub struct RowMeasurementTemplate {
    pub measurement: Measurement,
}

impl RowMeasurementTemplate {
    /// The template filled with what is given.
    pub fn new(measurement: Measurement) -> (template: RowMeasurementTemplate)
        ensures
            template == (RowMeasurementTemplate { measurement }),
    {
        RowMeasurementTemplate { measurement }
    }
}

/// One measurement, as a form in which to change it.
#[derive(Debug)]
pub struct EditRowMeasurementTemplate {
    pub measurement: Measurement,
}

impl EditRowMeasurementTemplate {
    /// The template filled with what is given.
    pub fn new(measurement: Measurement) -> (template: EditRowMeasurementTemplate)
        ensures
            template == (EditRowMeasurementTemplate { measurement }),
    {
        EditRowMeasurementTemplate { measurement }
    }
}

/// The list of the tasks under a project.
#[derive(Debug)]
pub struct TableTasksTemplate {
    pub tasks: Option<Vec<Task>>,
    pub project_id: i32,
}

impl TableTasksTemplate {
    /// The template filled with what is given.
    pub fn new(tasks: Option<Vec<Task>>, project_id: i32) -> (template: TableTasksTemplate)
        ensures
            template == (TableTasksTemplate { tasks, project_id }),
    {
        TableTasksTemplate { tasks, project_id }
    }
}

/// One task, as a row of a list.
#[derive(Debug)]
pub struct RowTaskTemplate {
    pub task: Task,
}

impl RowTaskTemplate {
    /// The template filled with what is given.
    pub fn new(task: Task) -> (template: RowTaskTemplate)
        ensures
            template == (RowTaskTemplate { task }),
    {
        RowTaskTemplate { task }
    }
}

/// One task, as a form in which to change it.
#[derive(Debug)]
pub struct EditRowTaskTemplate {
    pub task: Task,
}

impl EditRowTaskTemplate {
    /// The template filled with what is given.
    pub fn new(task: Task) -> (template: EditRowTaskTemplate)
        ensures
            template == (EditRowTaskTemplate { task }),
    {
        EditRowTaskTemplate { task }
    }
}

/// The page that reports an error: the HTTP status code and the words that
/// go with it.
#[derive(Debug)]
pub struct ErrorTemplate {
    pub error_code: u16,
    pub error_message: String,
}

impl ErrorTemplate {
    /// The template filled with what is given.
    pub fn new(error_code: u16, error_message: String) -> (template: ErrorTemplate)
        ensures
            template == (ErrorTemplate { error_code, error_message }),
    {
        ErrorTemplate { error_code, error_message }
    }
}

/// A template that is to be rendered as HTML.
#[derive(Debug)]
pub struct HtmlTemplate<T>(pub T);

/// The fragment that answers a request: one of the templates, filled.
#[derive(Debug)]
pub enum FragmentPayload {
    PageRoot(PageRootTemplate),
    PageTheme(PageThemeTemplate),
    TableThemes(TableThemesTemplate),
    RowTheme(RowThemeTemplate),
    EditRowTheme(EditRowThemeTemplate),
    PageObjective(PageObjectiveTemplate),
    TableObjectives(TableObjectivesTemplate),
    RowObjective(RowObjectiveTemplate),
    EditRowObjective(EditRowObjectiveTemplate),
    PageKeyResult(PageKeyResultTemplate),
    TableKeyResults(TableKeyResultsTemplate),
    RowKeyResult(RowKeyResultTemplate),
    EditRowKeyResult(EditRowKeyResultTemplate),
    PageInitiative(PageInitiativeTemplate),
    TableInitiatives(TableInitiativesTemplate),
    RowInitiative(RowInitiativeTemplate),
    EditRowInitiative(EditRowInitiativeTemplate),
    PageProject(PageProjectTemplate),
    TableProjects(TableProjectsTemplate),
    RowProject(RowProjectTemplate),
    EditRowProject(EditRowProjectTemplate),
    TableMeasurements(TableMeasurementsTemplate),
    RowMeasurement(RowMeasurementTemplate),
    EditRowMeasurement(EditRowMeasurementTemplate),
    TableTasks(TableTasksTemplate),
    RowTask(RowTaskTemplate),
    EditRowTask(EditRowTaskTemplate),
    Error(ErrorTemplate),
}

} // verus!
