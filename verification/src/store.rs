//! The store of all records: one table for each kind.
//!
//! The tables are flat. Which record hangs under which is read from the
//! parent ids that the rows carry: the children of a record are the rows of
//! the child kind that name it, in ascending order of id. A record is made
//! only under a parent that exists; taking a record out leaves the records
//! below it where they are.
//!
//! The status of a project is always the one that the statuses of its tasks
//! give it: whatever makes, changes or takes out a task works the status of
//! its project out anew before it returns.

use crate::errors::CustomError;
use crate::model::{
    Entity, Initiative, KeyResult, Measurement, Objective, Patch, Project, ResourceKind, Status,
    Task, Theme, Timestamp,
};
use crate::status::{aggregate, spec_aggregate};
use crate::table::{entities, to_entities, Row, Table, TableView};
use vstd::prelude::*;

verus! {

/// The statuses of the tasks, in the same order.
pub open spec fn statuses(tasks: Seq<Task>) -> Seq<Status> {
    Seq::new(tasks.len(), |i: int| tasks[i].task_status)
}

/// The record that a table finds under an id, as a record of any kind.
pub open spec fn found<T: Row>(table: TableView<T>, id: i32) -> Option<Entity> {
    match table.find(id) {
        Some(row) => Some(row.entity()),
        None => None,
    }
}

impl Patch {
    /// The title after the write: the one that the write carries, or else
    /// the one that was there.
    pub open spec fn title_over(self, title: String) -> String {
        match self.title {
            Some(new_title) => new_title,
            None => title,
        }
    }

    /// The status after the write: the one that the write carries, or else
    /// the one that was there.
    pub open spec fn status_over(self, status: Status) -> Status {
        match self.status {
            Some(new_status) => new_status,
            None => status,
        }
    }
}

/// What the store holds: the seven tables.
pub struct StoreView {
    pub themes: TableView<Theme>,
    pub objectives: TableView<Objective>,
    pub keyresults: TableView<KeyResult>,
    pub initiatives: TableView<Initiative>,
    pub projects: TableView<Project>,
    pub tasks: TableView<Task>,
    pub measurements: TableView<Measurement>,
}

impl StoreView {
    /// The store that has never held a record.
    pub open spec fn empty() -> Self {
        StoreView {
            themes: TableView::empty(),
            objectives: TableView::empty(),
            keyresults: TableView::empty(),
            initiatives: TableView::empty(),
            projects: TableView::empty(),
            tasks: TableView::empty(),
            measurements: TableView::empty(),
        }
    }

    /// Every table is well formed.
    pub open spec fn tables_wf(self) -> bool {
        &&& self.themes.wf()
        &&& self.objectives.wf()
        &&& self.keyresults.wf()
        &&& self.initiatives.wf()
        &&& self.projects.wf()
        &&& self.tasks.wf()
        &&& self.measurements.wf()
    }

    /// Every parent id that a row carries is one that the table of the
    /// parent kind has given out, whether or not that parent is still there.
    pub open spec fn parents_issued(self) -> bool {
        &&& self.objectives.parents_below(self.themes.next_id)
        &&& self.keyresults.parents_below(self.objectives.next_id)
        &&& self.initiatives.parents_below(self.objectives.next_id)
        &&& self.projects.parents_below(self.objectives.next_id)
        &&& self.tasks.parents_below(self.projects.next_id)
        &&& self.measurements.parents_below(self.keyresults.next_id)
    }

    /// No theme has started: the records directly below a theme carry no
    /// status, so nothing moves the status of a theme.
    pub open spec fn themes_rest(self) -> bool {
        forall|i: int|
            0 <= i < self.themes.rows.len() ==> (#[trigger] self.themes.rows[i]).theme_status
                == Status::NotStarted
    }

    /// The statuses of the tasks of a project, in ascending order of task id.
    pub open spec fn task_statuses(self, project_id: i32) -> Seq<Status> {
        statuses(self.tasks.children(project_id))
    }

    /// The status that the tasks of a project give it.
    pub open spec fn derived_status(self, project_id: i32) -> Status {
        spec_aggregate(self.task_statuses(project_id))
    }

    /// The project in row `i` has the status that its tasks give it.
    pub open spec fn project_is_consistent(self, i: int) -> bool {
        self.projects.rows[i].project_status == self.derived_status(
            self.projects.rows[i].project_id,
        )
    }

    /// Every project has the status that its tasks give it.
    pub open spec fn consistent(self) -> bool {
        forall|i: int| 0 <= i < self.projects.rows.len() ==> #[trigger] self.project_is_consistent(i)
    }

    /// Every project but the one with the given id has the status that its
    /// tasks give it.
    pub open spec fn consistent_but_for(self, project_id: i32) -> bool {
        forall|i: int|
            0 <= i < self.projects.rows.len() && self.projects.rows[i].project_id != project_id
                ==> #[trigger] self.project_is_consistent(i)
    }

    /// All that holds of a store but the statuses of its projects.
    pub open spec fn sound(self) -> bool {
        &&& self.tables_wf()
        &&& self.parents_issued()
        &&& self.themes_rest()
    }

    /// All that holds of a store at rest.
    pub open spec fn wf(self) -> bool {
        &&& self.sound()
        &&& self.consistent()
    }

    /// A record of the kind has the id.
    pub open spec fn contains(self, kind: ResourceKind, id: i32) -> bool {
        match kind {
            ResourceKind::Theme => self.themes.contains(id),
            ResourceKind::Objective => self.objectives.contains(id),
            ResourceKind::KeyResult => self.keyresults.contains(id),
            ResourceKind::Initiative => self.initiatives.contains(id),
            ResourceKind::Project => self.projects.contains(id),
            ResourceKind::Task => self.tasks.contains(id),
            ResourceKind::Measurement => self.measurements.contains(id),
        }
    }

    /// The record of the kind that has the id, if there is one.
    pub open spec fn get(self, kind: ResourceKind, id: i32) -> Option<Entity> {
        match kind {
            ResourceKind::Theme => found(self.themes, id),
            ResourceKind::Objective => found(self.objectives, id),
            ResourceKind::KeyResult => found(self.keyresults, id),
            ResourceKind::Initiative => found(self.initiatives, id),
            ResourceKind::Project => found(self.projects, id),
            ResourceKind::Task => found(self.tasks, id),
            ResourceKind::Measurement => found(self.measurements, id),
        }
    }

    /// The records of the kind `kind` that hang under the record with the id
    /// `parent_id`, in ascending order of id. Nothing hangs a theme under
    /// anything.
    pub open spec fn children(self, parent_id: i32, kind: ResourceKind) -> Seq<Entity> {
        match kind {
            ResourceKind::Theme => Seq::empty(),
            ResourceKind::Objective => entities(self.objectives.children(parent_id)),
            ResourceKind::KeyResult => entities(self.keyresults.children(parent_id)),
            ResourceKind::Initiative => entities(self.initiatives.children(parent_id)),
            ResourceKind::Project => entities(self.projects.children(parent_id)),
            ResourceKind::Task => entities(self.tasks.children(parent_id)),
            ResourceKind::Measurement => entities(self.measurements.children(parent_id)),
        }
    }

    /// The id that the next record of the kind gets.
    pub open spec fn next_id(self, kind: ResourceKind) -> i32 {
        match kind {
            ResourceKind::Theme => self.themes.next_id,
            ResourceKind::Objective => self.objectives.next_id,
            ResourceKind::KeyResult => self.keyresults.next_id,
            ResourceKind::Initiative => self.initiatives.next_id,
            ResourceKind::Project => self.projects.next_id,
            ResourceKind::Task => self.tasks.next_id,
            ResourceKind::Measurement => self.measurements.next_id,
        }
    }

    /// The table of the kind has given out its last id.
    pub open spec fn exhausted(self, kind: ResourceKind) -> bool {
        self.next_id(kind) >= i32::MAX
    }

    /// A record of the kind may be made under `parent`: a theme under
    /// nothing, any other record under a record of its parent kind that
    /// exists.
    pub open spec fn parent_exists(self, kind: ResourceKind, parent: Option<i32>) -> bool {
        match kind.spec_parent() {
            None => parent is None,
            Some(parent_kind) => match parent {
                Some(parent_id) => self.contains(parent_kind, parent_id),
                None => false,
            },
        }
    }

    /// Why a record of the kind cannot be made under `parent`, if it cannot:
    /// the parent is not there, or else the table has no id left to give.
    pub open spec fn create_error(self, kind: ResourceKind, parent: Option<i32>) -> Option<
        CustomError,
    > {
        if !self.parent_exists(kind, parent) {
            Some(CustomError::ParentNotFound)
        } else if self.exhausted(kind) {
            Some(CustomError::InternalServerError)
        } else {
            None
        }
    }

    /// The store after the status of the project with the id was worked out
    /// anew from its tasks. Without such a project the store is as it was.
    pub open spec fn rolled_up(self, project_id: i32) -> StoreView {
        match self.projects.find(project_id) {
            Some(project) => StoreView {
                projects: self.projects.replaced(
                    Project { project_status: self.derived_status(project_id), ..project },
                ),
                ..self
            },
            None => self,
        }
    }

    /// The store after a record of the kind was made under `parent` at the
    /// time `now`. The record gets the next id of its kind, starts as
    /// `NotStarted` where it carries a status, and keeps the time at which
    /// it was made where it carries times; it has not been changed yet. A
    /// new task has the status of its project worked out anew.
    pub open spec fn created(
        self,
        kind: ResourceKind,
        title: String,
        parent: Option<i32>,
        now: Timestamp,
    ) -> StoreView {
        let under = parent.unwrap();
        match kind {
            ResourceKind::Theme => StoreView {
                themes: self.themes.inserted(
                    Theme {
                        theme_id: self.themes.next_id,
                        title,
                        theme_status: Status::NotStarted,
                    },
                ),
                ..self
            },
            ResourceKind::Objective => StoreView {
                objectives: self.objectives.inserted(
                    Objective {
                        objective_id: self.objectives.next_id,
                        title,
                        theme_id: under,
                        created_at: Some(now),
                        updated_at: None,
                    },
                ),
                ..self
            },
            ResourceKind::KeyResult => StoreView {
                keyresults: self.keyresults.inserted(
                    KeyResult {
                        keyresult_id: self.keyresults.next_id,
                        title,
                        objective_id: under,
                        created_at: Some(now),
                        updated_at: None,
                    },
                ),
                ..self
            },
            ResourceKind::Initiative => StoreView {
                initiatives: self.initiatives.inserted(
                    Initiative {
                        initiative_id: self.initiatives.next_id,
                        title,
                        objective_id: under,
                        initiative_status: Status::NotStarted,
                        created_at: Some(now),
                        updated_at: None,
                    },
                ),
                ..self
            },
            ResourceKind::Project => StoreView {
                projects: self.projects.inserted(
                    Project {
                        project_id: self.projects.next_id,
                        title,
                        project_status: Status::NotStarted,
                        objective_id: under,
                        created_at: Some(now),
                        updated_at: None,
                    },
                ),
                ..self
            },
            ResourceKind::Task => (StoreView {
                tasks: self.tasks.inserted(
                    Task {
                        task_id: self.tasks.next_id,
                        title,
                        task_status: Status::NotStarted,
                        project_id: under,
                        created_at: Some(now),
                        updated_at: None,
                    },
                ),
                ..self
            }).rolled_up(under),
            ResourceKind::Measurement => StoreView {
                measurements: self.measurements.inserted(
                    Measurement {
                        measurement_id: self.measurements.next_id,
                        measurement: title,
                        keyresult_id: under,
                        created_at: Some(now),
                        updated_at: None,
                    },
                ),
                ..self
            },
        }
    }

    /// The store after the write `patch` was applied, at the time `now`, to
    /// the record of the kind that has the id. The title is taken from the
    /// write where it carries one; the status too, for the kinds whose
    /// status is set by hand, which are initiatives and tasks. The record
    /// keeps `now` as the time of its last change where it carries times. A
    /// changed task has the status of its project worked out anew. Without
    /// such a record the store is as it was.
    pub open spec fn updated(self, kind: ResourceKind, id: i32, patch: Patch, now: Timestamp)
        -> StoreView {
        match kind {
            ResourceKind::Theme => match self.themes.find(id) {
                Some(theme) => StoreView {
                    themes: self.themes.replaced(
                        Theme { title: patch.title_over(theme.title), ..theme },
                    ),
                    ..self
                },
                None => self,
            },
            ResourceKind::Objective => match self.objectives.find(id) {
                Some(objective) => StoreView {
                    objectives: self.objectives.replaced(
                        Objective {
                            title: patch.title_over(objective.title),
                            updated_at: Some(now),
                            ..objective
                        },
                    ),
                    ..self
                },
                None => self,
            },
            ResourceKind::KeyResult => match self.keyresults.find(id) {
                Some(keyresult) => StoreView {
                    keyresults: self.keyresults.replaced(
                        KeyResult {
                            title: patch.title_over(keyresult.title),
                            updated_at: Some(now),
                            ..keyresult
                        },
                    ),
                    ..self
                },
                None => self,
            },
            ResourceKind::Initiative => match self.initiatives.find(id) {
                Some(initiative) => StoreView {
                    initiatives: self.initiatives.replaced(
                        Initiative {
                            title: patch.title_over(initiative.title),
                            initiative_status: patch.status_over(initiative.initiative_status),
                            updated_at: Some(now),
                            ..initiative
                        },
                    ),
                    ..self
                },
                None => self,
            },
            ResourceKind::Project => match self.projects.find(id) {
                Some(project) => StoreView {
                    projects: self.projects.replaced(
                        Project {
                            title: patch.title_over(project.title),
                            updated_at: Some(now),
                            ..project
                        },
                    ),
                    ..self
                },
                None => self,
            },
            ResourceKind::Task => match self.tasks.find(id) {
                Some(task) => (StoreView {
                    tasks: self.tasks.replaced(
                        Task {
                            title: patch.title_over(task.title),
                            task_status: patch.status_over(task.task_status),
                            updated_at: Some(now),
                            ..task
                        },
                    ),
                    ..self
                }).rolled_up(task.project_id),
                None => self,
            },
            ResourceKind::Measurement => match self.measurements.find(id) {
                Some(measurement) => StoreView {
                    measurements: self.measurements.replaced(
                        Measurement {
                            measurement: patch.title_over(measurement.measurement),
                            updated_at: Some(now),
                            ..measurement
                        },
                    ),
                    ..self
                },
                None => self,
            },
        }
    }

    /// The store after the record of the kind that has the id was taken out.
    /// The records below it stay. When a task is taken out, the status of
    /// its project is worked out anew. Without such a record the store is as
    /// it was.
    pub open spec fn removed(self, kind: ResourceKind, id: i32) -> StoreView {
        match kind {
            ResourceKind::Theme => StoreView { themes: self.themes.removed(id), ..self },
            ResourceKind::Objective => StoreView {
                objectives: self.objectives.removed(id),
                ..self
            },
            ResourceKind::KeyResult => StoreView {
                keyresults: self.keyresults.removed(id),
                ..self
            },
            ResourceKind::Initiative => StoreView {
                initiatives: self.initiatives.removed(id),
                ..self
            },
            ResourceKind::Project => StoreView { projects: self.projects.removed(id), ..self },
            ResourceKind::Task => match self.tasks.find(id) {
                Some(task) => (StoreView { tasks: self.tasks.removed(id), ..self }).rolled_up(
                    task.project_id,
                ),
                None => self,
            },
            ResourceKind::Measurement => StoreView {
                measurements: self.measurements.removed(id),
                ..self
            },
        }
    }

    /// A store whose projects and tasks are those of a store in which every
    /// project but one has the status that its tasks give it is such a store
    /// too.
    proof fn lemma_consistency_carries(self, other: StoreView, project_id: i32)
        requires
            self.consistent_but_for(project_id),
            other.projects == self.projects,
            forall|parent: i32|
                parent != project_id ==> #[trigger] other.tasks.children(parent)
                    == self.tasks.children(parent),
        ensures
            other.consistent_but_for(project_id),
    {
        assert forall|i: int|
            0 <= i < other.projects.rows.len() && other.projects.rows[i].project_id
                != project_id implies #[trigger] other.project_is_consistent(i) by {
            assert(self.project_is_consistent(i));
            assert(other.tasks.children(other.projects.rows[i].project_id) == self.tasks.children(
                self.projects.rows[i].project_id,
            ));
        }
    }

    /// Working the status of a project out anew sets right the one project
    /// that may have been left behind, and touches nothing else.
    pub proof fn lemma_rolled_up_wf(self, project_id: i32)
        requires
            self.sound(),
            self.consistent_but_for(project_id),
        ensures
            self.rolled_up(project_id).wf(),
    {
        let after = self.rolled_up(project_id);
        match self.projects.find(project_id) {
            Some(project) => {
                let row = Project { project_status: self.derived_status(project_id), ..project };
                self.projects.lemma_find_some(project_id);
                let k = self.projects.index_of(project_id);
                self.projects.lemma_replaced_wf(row);
                self.projects.lemma_parents_below_replaced(row, self.objectives.next_id);
                assert(after.projects.rows == self.projects.rows.update(k, row));
                assert forall|i: int|
                    0 <= i < after.projects.rows.len() implies #[trigger] after.project_is_consistent(
                    i,
                ) by {
                    if i == k {
                        assert(after.projects.rows[i] == row);
                    } else {
                        assert(after.projects.rows[i] == self.projects.rows[i]);
                        if self.projects.rows[i].project_id == project_id {
                            self.projects.lemma_find_at(i);
                        }
                        assert(self.project_is_consistent(i));
                    }
                }
            },
            None => {
                assert forall|i: int|
                    0 <= i < self.projects.rows.len() implies #[trigger] self.project_is_consistent(
                    i,
                ) by {
                    if self.projects.rows[i].project_id == project_id {
                        self.projects.lemma_find_at(i);
                    }
                }
            },
        }
    }

    /// In a store at rest, working the status of a project out anew changes
    /// nothing.
    pub proof fn lemma_rolled_up_at_rest(self, project_id: i32)
        requires
            self.wf(),
        ensures
            self.rolled_up(project_id) == self,
    {
        match self.projects.find(project_id) {
            Some(project) => {
                self.projects.lemma_find_some(project_id);
                let k = self.projects.index_of(project_id);
                assert(self.project_is_consistent(k));
                assert(self.projects.rows.update(k, project) =~= self.projects.rows);
            },
            None => {},
        }
    }

    /// Working the status of a project out a second time changes nothing.
    pub proof fn lemma_rolled_up_twice(self, project_id: i32)
        requires
            self.tables_wf(),
        ensures
            self.rolled_up(project_id).rolled_up(project_id) == self.rolled_up(project_id),
    {
        let once = self.rolled_up(project_id);
        match self.projects.find(project_id) {
            Some(project) => {
                let row = Project { project_status: self.derived_status(project_id), ..project };
                self.projects.lemma_find_some(project_id);
                self.projects.lemma_replaced_find(row, project_id);
                self.projects.lemma_replaced_wf(row);
                once.projects.lemma_find_some(project_id);
                let k = once.projects.index_of(project_id);
                assert(once.projects.rows.update(k, row) =~= once.projects.rows);
            },
            None => {},
        }
    }

    /// A store whose projects and tasks are those of a store in which every
    /// project has the status that its tasks give it is such a store too.
    proof fn lemma_consistency_stays(self, other: StoreView)
        requires
            self.consistent(),
            other.projects == self.projects,
            other.tasks == self.tasks,
        ensures
            other.consistent(),
    {
        assert forall|i: int| 0 <= i < other.projects.rows.len() implies #[trigger] other.project_is_consistent(
            i,
        ) by {
            assert(self.project_is_consistent(i));
        }
    }

    /// A theme can always be made while its table has an id to give.
    proof fn lemma_created_theme_wf(self, title: String, now: Timestamp)
        requires
            self.wf(),
            !self.themes.exhausted(),
        ensures
            self.created(ResourceKind::Theme, title, None, now).wf(),
    {
        let after = self.created(ResourceKind::Theme, title, None, now);
        let row = Theme { theme_id: self.themes.next_id, title, theme_status: Status::NotStarted };
        self.themes.lemma_inserted_wf(row);
        self.objectives.lemma_parents_below_wider(self.themes.next_id, after.themes.next_id);
        assert forall|i: int| 0 <= i < after.themes.rows.len() implies (
        #[trigger] after.themes.rows[i]).theme_status == Status::NotStarted by {
            if i < self.themes.rows.len() {
                assert(after.themes.rows[i] == self.themes.rows[i]);
            }
        }
        self.lemma_consistency_stays(after);
    }

    /// An objective can be made under a theme that exists.
    proof fn lemma_created_objective_wf(self, title: String, under: i32, now: Timestamp)
        requires
            self.wf(),
            self.themes.contains(under),
            !self.objectives.exhausted(),
        ensures
            self.created(ResourceKind::Objective, title, Some(under), now).wf(),
    {
        let after = self.created(ResourceKind::Objective, title, Some(under), now);
        let row = Objective {
            objective_id: self.objectives.next_id,
            title,
            theme_id: under,
            created_at: Some(now),
            updated_at: None,
        };
        self.themes.lemma_find_some(under);
        self.objectives.lemma_inserted_wf(row);
        self.objectives.lemma_parents_below_inserted(row, self.themes.next_id);
        self.keyresults.lemma_parents_below_wider(self.objectives.next_id, after.objectives.next_id);
        self.initiatives.lemma_parents_below_wider(self.objectives.next_id, after.objectives.next_id);
        self.projects.lemma_parents_below_wider(self.objectives.next_id, after.objectives.next_id);
        self.lemma_consistency_stays(after);
    }

    /// A key result can be made under an objective that exists.
    proof fn lemma_created_keyresult_wf(self, title: String, under: i32, now: Timestamp)
        requires
            self.wf(),
            self.objectives.contains(under),
            !self.keyresults.exhausted(),
        ensures
            self.created(ResourceKind::KeyResult, title, Some(under), now).wf(),
    {
        let after = self.created(ResourceKind::KeyResult, title, Some(under), now);
        let row = KeyResult {
            keyresult_id: self.keyresults.next_id,
            title,
            objective_id: under,
            created_at: Some(now),
            updated_at: None,
        };
        self.objectives.lemma_find_some(under);
        self.keyresults.lemma_inserted_wf(row);
        self.keyresults.lemma_parents_below_inserted(row, self.objectives.next_id);
        self.measurements.lemma_parents_below_wider(self.keyresults.next_id, after.keyresults.next_id);
        self.lemma_consistency_stays(after);
    }

    /// An initiative can be made under an objective that exists.
    proof fn lemma_created_initiative_wf(self, title: String, under: i32, now: Timestamp)
        requires
            self.wf(),
            self.objectives.contains(under),
            !self.initiatives.exhausted(),
        ensures
            self.created(ResourceKind::Initiative, title, Some(under), now).wf(),
    {
        let after = self.created(ResourceKind::Initiative, title, Some(under), now);
        let row = Initiative {
            initiative_id: self.initiatives.next_id,
            title,
            objective_id: under,
            initiative_status: Status::NotStarted,
            created_at: Some(now),
            updated_at: None,
        };
        self.objectives.lemma_find_some(under);
        self.initiatives.lemma_inserted_wf(row);
        self.initiatives.lemma_parents_below_inserted(row, self.objectives.next_id);
        self.lemma_consistency_stays(after);
    }

    /// A measurement can be made under a key result that exists.
    proof fn lemma_created_measurement_wf(self, title: String, under: i32, now: Timestamp)
        requires
            self.wf(),
            self.keyresults.contains(under),
            !self.measurements.exhausted(),
        ensures
            self.created(ResourceKind::Measurement, title, Some(under), now).wf(),
    {
        let after = self.created(ResourceKind::Measurement, title, Some(under), now);
        let row = Measurement {
            measurement_id: self.measurements.next_id,
            measurement: title,
            keyresult_id: under,
            created_at: Some(now),
            updated_at: None,
        };
        self.keyresults.lemma_find_some(under);
        self.measurements.lemma_inserted_wf(row);
        self.measurements.lemma_parents_below_inserted(row, self.keyresults.next_id);
        self.lemma_consistency_stays(after);
    }

    /// A project can be made under an objective that exists. No task names
    /// it yet, so it has not started.
    proof fn lemma_created_project_wf(self, title: String, under: i32, now: Timestamp)
        requires
            self.wf(),
            self.objectives.contains(under),
            !self.projects.exhausted(),
        ensures
            self.created(ResourceKind::Project, title, Some(under), now).wf(),
    {
        let after = self.created(ResourceKind::Project, title, Some(under), now);
        let row = Project {
            project_id: self.projects.next_id,
            title,
            project_status: Status::NotStarted,
            objective_id: under,
            created_at: Some(now),
            updated_at: None,
        };
        self.objectives.lemma_find_some(under);
        self.projects.lemma_inserted_wf(row);
        self.projects.lemma_parents_below_inserted(row, self.objectives.next_id);
        self.tasks.lemma_parents_below_wider(self.projects.next_id, after.projects.next_id);
        self.tasks.lemma_no_children(self.projects.next_id);
        assert(statuses(Seq::<Task>::empty()) =~= Seq::<Status>::empty());
        assert forall|i: int| 0 <= i < after.projects.rows.len() implies #[trigger] after.project_is_consistent(
            i,
        ) by {
            if i < self.projects.rows.len() {
                assert(after.projects.rows[i] == self.projects.rows[i]);
                assert(self.project_is_consistent(i));
            } else {
                assert(after.projects.rows[i] == row);
            }
        }
    }

    /// A task can be made under a project that exists; the project then has
    /// the status that its tasks, the new one among them, give it.
    proof fn lemma_created_task_wf(self, title: String, under: i32, now: Timestamp)
        requires
            self.wf(),
            self.projects.contains(under),
            !self.tasks.exhausted(),
        ensures
            self.created(ResourceKind::Task, title, Some(under), now).wf(),
    {
        let row = Task {
            task_id: self.tasks.next_id,
            title,
            task_status: Status::NotStarted,
            project_id: under,
            created_at: Some(now),
            updated_at: None,
        };
        let between = StoreView { tasks: self.tasks.inserted(row), ..self };
        self.projects.lemma_find_some(under);
        self.tasks.lemma_inserted_wf(row);
        self.tasks.lemma_parents_below_inserted(row, self.projects.next_id);
        assert forall|parent: i32| parent != under implies #[trigger] between.tasks.children(parent)
            == self.tasks.children(parent) by {
            self.tasks.lemma_inserted_children(row, parent);
        }
        self.lemma_consistency_carries(between, under);
        between.lemma_rolled_up_wf(under);
    }

    /// Making a record keeps the store at rest.
    pub proof fn lemma_created_wf(
        self,
        kind: ResourceKind,
        title: String,
        parent: Option<i32>,
        now: Timestamp,
    )
        requires
            self.wf(),
            self.create_error(kind, parent) is None,
        ensures
            self.created(kind, title, parent, now).wf(),
    {
        match kind {
            ResourceKind::Theme => self.lemma_created_theme_wf(title, now),
            ResourceKind::Objective => self.lemma_created_objective_wf(title, parent.unwrap(), now),
            ResourceKind::KeyResult => self.lemma_created_keyresult_wf(title, parent.unwrap(), now),
            ResourceKind::Initiative => self.lemma_created_initiative_wf(
                title,
                parent.unwrap(),
                now,
            ),
            ResourceKind::Project => self.lemma_created_project_wf(title, parent.unwrap(), now),
            ResourceKind::Task => self.lemma_created_task_wf(title, parent.unwrap(), now),
            ResourceKind::Measurement => self.lemma_created_measurement_wf(
                title,
                parent.unwrap(),
                now,
            ),
        }
    }

    /// The parent id that a row of a table carries is in the range that the
    /// table keeps to.
    proof fn lemma_parent_in_range<T: Row>(table: TableView<T>, id: i32, bound: i32)
        requires
            table.parents_below(bound),
            table.contains(id),
        ensures
            match table.find(id).unwrap().parent_key() {
                Some(parent) => 1 <= parent < bound,
                None => true,
            },
    {
        table.lemma_find_some(id);
    }

    /// Changing a theme keeps the store at rest.
    proof fn lemma_updated_theme_wf(self, id: i32, patch: Patch, now: Timestamp)
        requires
            self.wf(),
        ensures
            self.updated(ResourceKind::Theme, id, patch, now).wf(),
    {
        let after = self.updated(ResourceKind::Theme, id, patch, now);
        if let Some(theme) = self.themes.find(id) {
            let row = Theme { title: patch.title_over(theme.title), ..theme };
            self.themes.lemma_find_some(id);
            self.themes.lemma_replaced_wf(row);
            let k = self.themes.index_of(id);
            assert forall|i: int| 0 <= i < after.themes.rows.len() implies (
            #[trigger] after.themes.rows[i]).theme_status == Status::NotStarted by {
                if i != k {
                    assert(after.themes.rows[i] == self.themes.rows[i]);
                } else {
                    assert(self.themes.rows[k].theme_status == Status::NotStarted);
                }
            }
            self.lemma_consistency_stays(after);
        }
    }

    /// Changing an objective keeps the store at rest.
    proof fn lemma_updated_objective_wf(self, id: i32, patch: Patch, now: Timestamp)
        requires
            self.wf(),
        ensures
            self.updated(ResourceKind::Objective, id, patch, now).wf(),
    {
        let after = self.updated(ResourceKind::Objective, id, patch, now);
        if let Some(objective) = self.objectives.find(id) {
            let row = Objective {
                title: patch.title_over(objective.title),
                updated_at: Some(now),
                ..objective
            };
            Self::lemma_parent_in_range(self.objectives, id, self.themes.next_id);
            self.objectives.lemma_find_some(id);
            self.objectives.lemma_replaced_wf(row);
            self.objectives.lemma_parents_below_replaced(row, self.themes.next_id);
            self.lemma_consistency_stays(after);
        }
    }

    /// Changing a key result keeps the store at rest.
    proof fn lemma_updated_keyresult_wf(self, id: i32, patch: Patch, now: Timestamp)
        requires
            self.wf(),
        ensures
            self.updated(ResourceKind::KeyResult, id, patch, now).wf(),
    {
        let after = self.updated(ResourceKind::KeyResult, id, patch, now);
        if let Some(keyresult) = self.keyresults.find(id) {
            let row = KeyResult {
                title: patch.title_over(keyresult.title),
                updated_at: Some(now),
                ..keyresult
            };
            Self::lemma_parent_in_range(self.keyresults, id, self.objectives.next_id);
            self.keyresults.lemma_find_some(id);
            self.keyresults.lemma_replaced_wf(row);
            self.keyresults.lemma_parents_below_replaced(row, self.objectives.next_id);
            self.lemma_consistency_stays(after);
        }
    }

    /// Changing an initiative keeps the store at rest.
    proof fn lemma_updated_initiative_wf(self, id: i32, patch: Patch, now: Timestamp)
        requires
            self.wf(),
        ensures
            self.updated(ResourceKind::Initiative, id, patch, now).wf(),
    {
        let after = self.updated(ResourceKind::Initiative, id, patch, now);
        if let Some(initiative) = self.initiatives.find(id) {
            let row = Initiative {
                title: patch.title_over(initiative.title),
                initiative_status: patch.status_over(initiative.initiative_status),
                updated_at: Some(now),
                ..initiative
            };
            Self::lemma_parent_in_range(self.initiatives, id, self.objectives.next_id);
            self.initiatives.lemma_find_some(id);
            self.initiatives.lemma_replaced_wf(row);
            self.initiatives.lemma_parents_below_replaced(row, self.objectives.next_id);
            self.lemma_consistency_stays(after);
        }
    }

    /// Changing a measurement keeps the store at rest.
    proof fn lemma_updated_measurement_wf(self, id: i32, patch: Patch, now: Timestamp)
        requires
            self.wf(),
        ensures
            self.updated(ResourceKind::Measurement, id, patch, now).wf(),
    {
        let after = self.updated(ResourceKind::Measurement, id, patch, now);
        if let Some(measurement) = self.measurements.find(id) {
            let row = Measurement {
                measurement: patch.title_over(measurement.measurement),
                updated_at: Some(now),
                ..measurement
            };
            Self::lemma_parent_in_range(self.measurements, id, self.keyresults.next_id);
            self.measurements.lemma_find_some(id);
            self.measurements.lemma_replaced_wf(row);
            self.measurements.lemma_parents_below_replaced(row, self.keyresults.next_id);
            self.lemma_consistency_stays(after);
        }
    }

    /// Changing a project keeps the store at rest: the write leaves its
    /// status alone.
    proof fn lemma_updated_project_wf(self, id: i32, patch: Patch, now: Timestamp)
        requires
            self.wf(),
        ensures
            self.updated(ResourceKind::Project, id, patch, now).wf(),
    {
        let after = self.updated(ResourceKind::Project, id, patch, now);
        if let Some(project) = self.projects.find(id) {
            let row = Project {
                title: patch.title_over(project.title),
                updated_at: Some(now),
                ..project
            };
            Self::lemma_parent_in_range(self.projects, id, self.objectives.next_id);
            self.projects.lemma_find_some(id);
            self.projects.lemma_replaced_wf(row);
            self.projects.lemma_parents_below_replaced(row, self.objectives.next_id);
            let k = self.projects.index_of(id);
            assert forall|i: int| 0 <= i < after.projects.rows.len() implies #[trigger] after.project_is_consistent(
                i,
            ) by {
                assert(self.project_is_consistent(i));
                if i != k {
                    assert(after.projects.rows[i] == self.projects.rows[i]);
                }
            }
        }
    }

    /// Changing a task keeps the store at rest: its project then has the
    /// status that its tasks, the changed one among them, give it.
    proof fn lemma_updated_task_wf(self, id: i32, patch: Patch, now: Timestamp)
        requires
            self.wf(),
        ensures
            self.updated(ResourceKind::Task, id, patch, now).wf(),
    {
        if let Some(task) = self.tasks.find(id) {
            let row = Task {
                title: patch.title_over(task.title),
                task_status: patch.status_over(task.task_status),
                updated_at: Some(now),
                ..task
            };
            let between = StoreView { tasks: self.tasks.replaced(row), ..self };
            Self::lemma_parent_in_range(self.tasks, id, self.projects.next_id);
            self.tasks.lemma_find_some(id);
            self.tasks.lemma_replaced_wf(row);
            self.tasks.lemma_parents_below_replaced(row, self.projects.next_id);
            assert forall|parent: i32| parent != task.project_id implies #[trigger] between.tasks.children(
                parent,
            ) == self.tasks.children(parent) by {
                self.tasks.lemma_replaced_children(row, parent);
            }
            self.lemma_consistency_carries(between, task.project_id);
            between.lemma_rolled_up_wf(task.project_id);
        }
    }

    /// Applying a write keeps the store at rest.
    pub proof fn lemma_updated_wf(self, kind: ResourceKind, id: i32, patch: Patch, now: Timestamp)
        requires
            self.wf(),
        ensures
            self.updated(kind, id, patch, now).wf(),
    {
        match kind {
            ResourceKind::Theme => self.lemma_updated_theme_wf(id, patch, now),
            ResourceKind::Objective => self.lemma_updated_objective_wf(id, patch, now),
            ResourceKind::KeyResult => self.lemma_updated_keyresult_wf(id, patch, now),
            ResourceKind::Initiative => self.lemma_updated_initiative_wf(id, patch, now),
            ResourceKind::Project => self.lemma_updated_project_wf(id, patch, now),
            ResourceKind::Task => self.lemma_updated_task_wf(id, patch, now),
            ResourceKind::Measurement => self.lemma_updated_measurement_wf(id, patch, now),
        }
    }

    /// Taking a record out keeps the store at rest.
    pub proof fn lemma_removed_wf(self, kind: ResourceKind, id: i32)
        requires
            self.wf(),
        ensures
            self.removed(kind, id).wf(),
    {
        let after = self.removed(kind, id);
        match kind {
            ResourceKind::Theme => {
                self.themes.lemma_removed_wf(id);
                if self.themes.contains(id) {
                    let k = self.themes.index_of(id);
                    assert forall|i: int| 0 <= i < after.themes.rows.len() implies (
                    #[trigger] after.themes.rows[i]).theme_status == Status::NotStarted by {
                        if i < k {
                            assert(after.themes.rows[i] == self.themes.rows[i]);
                        } else {
                            assert(after.themes.rows[i] == self.themes.rows[i + 1]);
                        }
                    }
                }
                self.lemma_consistency_stays(after);
            },
            ResourceKind::Objective => {
                self.objectives.lemma_removed_wf(id);
                self.objectives.lemma_parents_below_removed(id, self.themes.next_id);
                self.lemma_consistency_stays(after);
            },
            ResourceKind::KeyResult => {
                self.keyresults.lemma_removed_wf(id);
                self.keyresults.lemma_parents_below_removed(id, self.objectives.next_id);
                self.lemma_consistency_stays(after);
            },
            ResourceKind::Initiative => {
                self.initiatives.lemma_removed_wf(id);
                self.initiatives.lemma_parents_below_removed(id, self.objectives.next_id);
                self.lemma_consistency_stays(after);
            },
            ResourceKind::Project => {
                self.projects.lemma_removed_wf(id);
                self.projects.lemma_parents_below_removed(id, self.objectives.next_id);
                if self.projects.contains(id) {
                    let k = self.projects.index_of(id);
                    assert forall|i: int| 0 <= i < after.projects.rows.len() implies #[trigger] after.project_is_consistent(
                        i,
                    ) by {
                        if i < k {
                            assert(after.projects.rows[i] == self.projects.rows[i]);
                            assert(self.project_is_consistent(i));
                        } else {
                            assert(after.projects.rows[i] == self.projects.rows[i + 1]);
                            assert(self.project_is_consistent(i + 1));
                        }
                    }
                }
            },
            ResourceKind::Task => {
                if let Some(task) = self.tasks.find(id) {
                    let between = StoreView { tasks: self.tasks.removed(id), ..self };
                    self.tasks.lemma_removed_wf(id);
                    self.tasks.lemma_parents_below_removed(id, self.projects.next_id);
                    assert forall|parent: i32| parent != task.project_id implies #[trigger] between.tasks.children(
                        parent,
                    ) == self.tasks.children(parent) by {
                        self.tasks.lemma_removed_children(id, parent);
                    }
                    self.lemma_consistency_carries(between, task.project_id);
                    between.lemma_rolled_up_wf(task.project_id);
                }
            },
            ResourceKind::Measurement => {
                self.measurements.lemma_removed_wf(id);
                self.measurements.lemma_parents_below_removed(id, self.keyresults.next_id);
                self.lemma_consistency_stays(after);
            },
        }
    }
}

impl StoreView {
    /// A record that was just made is found under the id it was given, with
    /// the title and the parent it was made with. It has not started, where
    /// its kind carries a status; it keeps the time at which it was made,
    /// where its kind carries times; and it has not been changed.
    pub proof fn lemma_created_is_found(
        self,
        kind: ResourceKind,
        title: String,
        parent: Option<i32>,
        now: Timestamp,
    )
        requires
            self.wf(),
            self.create_error(kind, parent) is None,
        ensures
            ({
                let made = self.created(kind, title, parent, now).get(kind, self.next_id(kind));
                &&& made is Some
                &&& made.unwrap().spec_kind() == kind
                &&& made.unwrap().spec_id() == self.next_id(kind)
                &&& made.unwrap().spec_title() == title
                &&& made.unwrap().spec_parent_id() == parent
                &&& made.unwrap().spec_status() == (if kind.spec_has_status() {
                    Some(Status::NotStarted)
                } else {
                    None
                })
                &&& made.unwrap().spec_created_at() == (if kind.spec_has_timestamps() {
                    Some(now)
                } else {
                    None
                })
                &&& made.unwrap().spec_updated_at() is None
            }),
    {
        match kind {
            ResourceKind::Theme => {
                let row = Theme {
                    theme_id: self.themes.next_id,
                    title,
                    theme_status: Status::NotStarted,
                };
                self.themes.lemma_inserted_find(row, row.theme_id);
            },
            ResourceKind::Objective => {
                let row = Objective {
                    objective_id: self.objectives.next_id,
                    title,
                    theme_id: parent.unwrap(),
                    created_at: Some(now),
                    updated_at: None,
                };
                self.objectives.lemma_inserted_find(row, row.objective_id);
            },
            ResourceKind::KeyResult => {
                let row = KeyResult {
                    keyresult_id: self.keyresults.next_id,
                    title,
                    objective_id: parent.unwrap(),
                    created_at: Some(now),
                    updated_at: None,
                };
                self.keyresults.lemma_inserted_find(row, row.keyresult_id);
            },
            ResourceKind::Initiative => {
                let row = Initiative {
                    initiative_id: self.initiatives.next_id,
                    title,
                    objective_id: parent.unwrap(),
                    initiative_status: Status::NotStarted,
                    created_at: Some(now),
                    updated_at: None,
                };
                self.initiatives.lemma_inserted_find(row, row.initiative_id);
            },
            ResourceKind::Project => {
                let row = Project {
                    project_id: self.projects.next_id,
                    title,
                    project_status: Status::NotStarted,
                    objective_id: parent.unwrap(),
                    created_at: Some(now),
                    updated_at: None,
                };
                self.projects.lemma_inserted_find(row, row.project_id);
            },
            ResourceKind::Task => {
                let row = Task {
                    task_id: self.tasks.next_id,
                    title,
                    task_status: Status::NotStarted,
                    project_id: parent.unwrap(),
                    created_at: Some(now),
                    updated_at: None,
                };
                self.tasks.lemma_inserted_find(row, row.task_id);
            },
            ResourceKind::Measurement => {
                let row = Measurement {
                    measurement_id: self.measurements.next_id,
                    measurement: title,
                    keyresult_id: parent.unwrap(),
                    created_at: Some(now),
                    updated_at: None,
                };
                self.measurements.lemma_inserted_find(row, row.measurement_id);
            },
        }
    }

    /// A new record joins the list of the children of its parent, at the end
    /// of that list, and the list of no other parent.
    pub proof fn lemma_created_joins_children(
        self,
        kind: ResourceKind,
        title: String,
        parent: Option<i32>,
        now: Timestamp,
        other: i32,
    )
        requires
            self.wf(),
            self.create_error(kind, parent) is None,
        ensures
            self.created(kind, title, parent, now).children(other, kind) == (if parent == Some(
                other,
            ) {
                self.children(other, kind).push(
                    self.created(kind, title, parent, now).get(kind, self.next_id(kind)).unwrap(),
                )
            } else {
                self.children(other, kind)
            }),
    {
        self.lemma_created_is_found(kind, title, parent, now);
        let after = self.created(kind, title, parent, now);
        let under = parent.unwrap();
        match kind {
            ResourceKind::Theme => {},
            ResourceKind::Objective => {
                let row = Objective {
                    objective_id: self.objectives.next_id,
                    title,
                    theme_id: under,
                    created_at: Some(now),
                    updated_at: None,
                };
                self.objectives.lemma_inserted_children(row, other);
                self.objectives.lemma_inserted_find(row, row.key());
                assert(after.objectives == self.objectives.inserted(row));
            },
            ResourceKind::KeyResult => {
                let row = KeyResult {
                    keyresult_id: self.keyresults.next_id,
                    title,
                    objective_id: under,
                    created_at: Some(now),
                    updated_at: None,
                };
                self.keyresults.lemma_inserted_children(row, other);
                self.keyresults.lemma_inserted_find(row, row.key());
                assert(after.keyresults == self.keyresults.inserted(row));
            },
            ResourceKind::Initiative => {
                let row = Initiative {
                    initiative_id: self.initiatives.next_id,
                    title,
                    objective_id: under,
                    initiative_status: Status::NotStarted,
                    created_at: Some(now),
                    updated_at: None,
                };
                self.initiatives.lemma_inserted_children(row, other);
                self.initiatives.lemma_inserted_find(row, row.key());
                assert(after.initiatives == self.initiatives.inserted(row));
            },
            ResourceKind::Project => {
                let row = Project {
                    project_id: self.projects.next_id,
                    title,
                    project_status: Status::NotStarted,
                    objective_id: under,
                    created_at: Some(now),
                    updated_at: None,
                };
                self.projects.lemma_inserted_children(row, other);
                self.projects.lemma_inserted_find(row, row.key());
                assert(after.projects == self.projects.inserted(row));
            },
            ResourceKind::Task => {
                let row = Task {
                    task_id: self.tasks.next_id,
                    title,
                    task_status: Status::NotStarted,
                    project_id: under,
                    created_at: Some(now),
                    updated_at: None,
                };
                self.tasks.lemma_inserted_children(row, other);
                self.tasks.lemma_inserted_find(row, row.key());
                assert(after.tasks == self.tasks.inserted(row));
            },
            ResourceKind::Measurement => {
                let row = Measurement {
                    measurement_id: self.measurements.next_id,
                    measurement: title,
                    keyresult_id: under,
                    created_at: Some(now),
                    updated_at: None,
                };
                self.measurements.lemma_inserted_children(row, other);
                self.measurements.lemma_inserted_find(row, row.key());
                assert(after.measurements == self.measurements.inserted(row));
            },
        }
        assert(after.children(other, kind) =~= (if parent == Some(other) {
            self.children(other, kind).push(after.get(kind, self.next_id(kind)).unwrap())
        } else {
            self.children(other, kind)
        }));
    }

    /// A record to which a write was applied is found under its id as the
    /// write left it: with the title of the write, where it carries one;
    /// with the status of the write, where it carries one and the status of
    /// the kind is set by hand; and with the time of the write as the time
    /// of its last change, where its kind carries times. Its kind, its
    /// parent and the time at which it was made are as they were.
    pub proof fn lemma_updated_is_found(
        self,
        kind: ResourceKind,
        id: i32,
        patch: Patch,
        now: Timestamp,
    )
        requires
            self.wf(),
            self.contains(kind, id),
        ensures
            ({
                let before = self.get(kind, id).unwrap();
                let after = self.updated(kind, id, patch, now).get(kind, id);
                &&& after is Some
                &&& after.unwrap().spec_kind() == kind
                &&& after.unwrap().spec_id() == id
                &&& after.unwrap().spec_parent_id() == before.spec_parent_id()
                &&& after.unwrap().spec_title() == patch.title_over(before.spec_title())
                &&& after.unwrap().spec_status() == (if kind.spec_status_is_settable() {
                    Some(patch.status_over(before.spec_status().unwrap()))
                } else {
                    before.spec_status()
                })
                &&& after.unwrap().spec_created_at() == before.spec_created_at()
                &&& after.unwrap().spec_updated_at() == (if kind.spec_has_timestamps() {
                    Some(now)
                } else {
                    None
                })
            }),
    {
        match kind {
            ResourceKind::Theme => {
                self.themes.lemma_find_some(id);
                let row = self.themes.find(id).unwrap();
                let changed = Theme { title: patch.title_over(row.title), ..row };
                self.themes.lemma_replaced_find(changed, id);
            },
            ResourceKind::Objective => {
                self.objectives.lemma_find_some(id);
                let row = self.objectives.find(id).unwrap();
                let changed = Objective { title: patch.title_over(row.title), updated_at: Some(now), ..row };
                self.objectives.lemma_replaced_find(changed, id);
            },
            ResourceKind::KeyResult => {
                self.keyresults.lemma_find_some(id);
                let row = self.keyresults.find(id).unwrap();
                let changed = KeyResult { title: patch.title_over(row.title), updated_at: Some(now), ..row };
                self.keyresults.lemma_replaced_find(changed, id);
            },
            ResourceKind::Initiative => {
                self.initiatives.lemma_find_some(id);
                let row = self.initiatives.find(id).unwrap();
                let changed = Initiative {
                    title: patch.title_over(row.title),
                    initiative_status: patch.status_over(row.initiative_status),
                    updated_at: Some(now),
                    ..row
                };
                self.initiatives.lemma_replaced_find(changed, id);
            },
            ResourceKind::Project => {
                self.projects.lemma_find_some(id);
                let row = self.projects.find(id).unwrap();
                let changed = Project { title: patch.title_over(row.title), updated_at: Some(now), ..row };
                self.projects.lemma_replaced_find(changed, id);
            },
            ResourceKind::Task => {
                self.tasks.lemma_find_some(id);
                let row = self.tasks.find(id).unwrap();
                let changed = Task {
                    title: patch.title_over(row.title),
                    task_status: patch.status_over(row.task_status),
                    updated_at: Some(now),
                    ..row
                };
                self.tasks.lemma_replaced_find(changed, id);
            },
            ResourceKind::Measurement => {
                self.measurements.lemma_find_some(id);
                let row = self.measurements.find(id).unwrap();
                let changed = Measurement {
                    measurement: patch.title_over(row.measurement),
                    updated_at: Some(now),
                    ..row
                };
                self.measurements.lemma_replaced_find(changed, id);
            },
        }
    }

    /// An id that a table has not given out yet names no record, and no
    /// making, changing or taking out of a record lets the next id of any
    /// kind fall: an id, once given, is not given again.
    pub proof fn lemma_ids_are_not_given_twice(
        self,
        kind: ResourceKind,
        other: ResourceKind,
        id: i32,
        title: String,
        parent: Option<i32>,
        patch: Patch,
        now: Timestamp,
    )
        requires
            self.wf(),
        ensures
            id >= self.next_id(kind) ==> !self.contains(kind, id),
            self.updated(other, id, patch, now).next_id(kind) == self.next_id(kind),
            self.removed(other, id).next_id(kind) == self.next_id(kind),
            self.create_error(other, parent) is None ==> self.created(
                other,
                title,
                parent,
                now,
            ).next_id(kind) == (if kind == other {
                self.next_id(kind) + 1
            } else {
                self.next_id(kind) as int
            }),
    {
        if self.contains(kind, id) {
            match kind {
                ResourceKind::Theme => self.themes.lemma_find_some(id),
                ResourceKind::Objective => self.objectives.lemma_find_some(id),
                ResourceKind::KeyResult => self.keyresults.lemma_find_some(id),
                ResourceKind::Initiative => self.initiatives.lemma_find_some(id),
                ResourceKind::Project => self.projects.lemma_find_some(id),
                ResourceKind::Task => self.tasks.lemma_find_some(id),
                ResourceKind::Measurement => self.measurements.lemma_find_some(id),
            }
        }
    }

    /// A record that was taken out is no longer found, and taking it out a
    /// second time changes nothing.
    pub proof fn lemma_removed_is_missing(self, kind: ResourceKind, id: i32)
        requires
            self.wf(),
        ensures
            self.removed(kind, id).get(kind, id) is None,
            !self.removed(kind, id).contains(kind, id),
            self.removed(kind, id).removed(kind, id) == self.removed(kind, id),
    {
        match kind {
            ResourceKind::Theme => self.themes.lemma_removed_find(id, id),
            ResourceKind::Objective => self.objectives.lemma_removed_find(id, id),
            ResourceKind::KeyResult => self.keyresults.lemma_removed_find(id, id),
            ResourceKind::Initiative => self.initiatives.lemma_removed_find(id, id),
            ResourceKind::Project => self.projects.lemma_removed_find(id, id),
            ResourceKind::Task => self.tasks.lemma_removed_find(id, id),
            ResourceKind::Measurement => self.measurements.lemma_removed_find(id, id),
        }
    }

    /// Taking a record out leaves every other record of its kind to be found
    /// as before.
    pub proof fn lemma_removed_keeps_others(self, kind: ResourceKind, id: i32, other: i32)
        requires
            self.wf(),
            other != id,
        ensures
            self.removed(kind, id).get(kind, other) == self.get(kind, other),
    {
        match kind {
            ResourceKind::Theme => self.themes.lemma_removed_find(id, other),
            ResourceKind::Objective => self.objectives.lemma_removed_find(id, other),
            ResourceKind::KeyResult => self.keyresults.lemma_removed_find(id, other),
            ResourceKind::Initiative => self.initiatives.lemma_removed_find(id, other),
            ResourceKind::Project => self.projects.lemma_removed_find(id, other),
            ResourceKind::Task => self.tasks.lemma_removed_find(id, other),
            ResourceKind::Measurement => self.measurements.lemma_removed_find(id, other),
        }
    }

    /// A parent that no record of the kind names has no children of that
    /// kind: their list is empty.
    pub proof fn lemma_childless_parent(self, parent_id: i32, kind: ResourceKind)
        requires
            self.wf(),
            forall|id: i32|
                match #[trigger] self.get(kind, id) {
                    Some(entity) => entity.spec_parent_id() != Some(parent_id),
                    None => true,
                },
        ensures
            self.children(parent_id, kind) == Seq::<Entity>::empty(),
    {
        match kind {
            ResourceKind::Theme => {},
            ResourceKind::Objective => {
                assert forall|i: int| 0 <= i < self.objectives.rows.len() implies (
                #[trigger] self.objectives.rows[i]).parent_key() != Some(parent_id) by {
                    self.objectives.lemma_find_at(i);
                    assert(self.get(kind, self.objectives.rows[i].objective_id) is Some);
                }
                self.objectives.lemma_no_children(parent_id);
            },
            ResourceKind::KeyResult => {
                assert forall|i: int| 0 <= i < self.keyresults.rows.len() implies (
                #[trigger] self.keyresults.rows[i]).parent_key() != Some(parent_id) by {
                    self.keyresults.lemma_find_at(i);
                    assert(self.get(kind, self.keyresults.rows[i].keyresult_id) is Some);
                }
                self.keyresults.lemma_no_children(parent_id);
            },
            ResourceKind::Initiative => {
                assert forall|i: int| 0 <= i < self.initiatives.rows.len() implies (
                #[trigger] self.initiatives.rows[i]).parent_key() != Some(parent_id) by {
                    self.initiatives.lemma_find_at(i);
                    assert(self.get(kind, self.initiatives.rows[i].initiative_id) is Some);
                }
                self.initiatives.lemma_no_children(parent_id);
            },
            ResourceKind::Project => {
                assert forall|i: int| 0 <= i < self.projects.rows.len() implies (
                #[trigger] self.projects.rows[i]).parent_key() != Some(parent_id) by {
                    self.projects.lemma_find_at(i);
                    assert(self.get(kind, self.projects.rows[i].project_id) is Some);
                }
                self.projects.lemma_no_children(parent_id);
            },
            ResourceKind::Task => {
                assert forall|i: int| 0 <= i < self.tasks.rows.len() implies (
                #[trigger] self.tasks.rows[i]).parent_key() != Some(parent_id) by {
                    self.tasks.lemma_find_at(i);
                    assert(self.get(kind, self.tasks.rows[i].task_id) is Some);
                }
                self.tasks.lemma_no_children(parent_id);
            },
            ResourceKind::Measurement => {
                assert forall|i: int| 0 <= i < self.measurements.rows.len() implies (
                #[trigger] self.measurements.rows[i]).parent_key() != Some(parent_id) by {
                    self.measurements.lemma_find_at(i);
                    assert(self.get(kind, self.measurements.rows[i].measurement_id) is Some);
                }
                self.measurements.lemma_no_children(parent_id);
            },
        }
        assert(self.children(parent_id, kind) =~= Seq::<Entity>::empty());
    }

    /// Every child in the list of a parent is a record of the kind asked
    /// for, is found under its own id, and names that parent; the list
    /// stands in ascending order of id.
    pub proof fn lemma_children_hang_under(self, parent_id: i32, kind: ResourceKind)
        requires
            self.wf(),
        ensures
            forall|i: int|
                0 <= i < self.children(parent_id, kind).len() ==> {
                    let child = #[trigger] self.children(parent_id, kind)[i];
                    &&& child.spec_kind() == kind
                    &&& child.spec_parent_id() == Some(parent_id)
                    &&& self.get(kind, child.spec_id()) == Some(child)
                },
            forall|i: int, j: int|
                0 <= i < j < self.children(parent_id, kind).len() ==> (#[trigger] self.children(
                    parent_id,
                    kind,
                )[i]).spec_id() < (#[trigger] self.children(parent_id, kind)[j]).spec_id(),
    {
        self.objectives.lemma_children_are_rows(parent_id);
        self.keyresults.lemma_children_are_rows(parent_id);
        self.initiatives.lemma_children_are_rows(parent_id);
        self.projects.lemma_children_are_rows(parent_id);
        self.tasks.lemma_children_are_rows(parent_id);
        self.measurements.lemma_children_are_rows(parent_id);
    }

    /// The status of a project that is there is the one that the statuses of
    /// its tasks give it.
    pub proof fn lemma_project_status_is_derived(self, project_id: i32)
        requires
            self.wf(),
            self.projects.contains(project_id),
        ensures
            self.get(ResourceKind::Project, project_id).unwrap().spec_status() == Some(
                self.derived_status(project_id),
            ),
    {
        self.projects.lemma_find_some(project_id);
        assert(self.project_is_consistent(self.projects.index_of(project_id)));
    }
}

/// The statuses of the tasks, in the same order.
fn statuses_of(tasks: &Vec<Task>) -> (found: Vec<Status>)
    ensures
        found@ == statuses(tasks@),
{
    let mut found: Vec<Status> = Vec::new();
    let mut i: usize = 0;
    while i < tasks.len()
        invariant
            i <= tasks.len(),
            found@ == statuses(tasks@.take(i as int)),
        decreases tasks.len() - i,
    {
        found.push(tasks[i].task_status);
        proof {
            assert(statuses(tasks@.take(i + 1)) =~= statuses(tasks@.take(i as int)).push(
                tasks@[i as int].task_status,
            ));
        }
        i += 1;
    }
    proof {
        assert(tasks@.take(i as int) =~= tasks@);
    }
    found
}

/// The title after a write: the one that the write carries, or else the one
/// that was there.
fn title_over(new_title: Option<String>, title: String) -> (after: String)
    ensures
        after == (Patch { title: new_title, status: None }).title_over(title),
{
    match new_title {
        Some(new_title) => new_title,
        None => title,
    }
}

/// The status after a write: the one that the write carries, or else the
/// one that was there.
fn status_over(new_status: Option<Status>, status: Status) -> (after: Status)
    ensures
        after == (Patch { title: None, status: new_status }).status_over(status),
{
    match new_status {
        Some(new_status) => new_status,
        None => status,
    }
}

/// The store of all records.
pub struct Store {
    themes: Table<Theme>,
    objectives: Table<Objective>,
    keyresults: Table<KeyResult>,
    initiatives: Table<Initiative>,
    projects: Table<Project>,
    tasks: Table<Task>,
    measurements: Table<Measurement>,
}

impl View for Store {
    type V = StoreView;

    closed spec fn view(&self) -> StoreView {
        StoreView {
            themes: self.themes@,
            objectives: self.objectives@,
            keyresults: self.keyresults@,
            initiatives: self.initiatives@,
            projects: self.projects@,
            tasks: self.tasks@,
            measurements: self.measurements@,
        }
    }
}

impl Store {
    /// The store is at rest: its tables are in order, every parent id is one
    /// that was given out, and every project has the status that its tasks
    /// give it.
    pub open spec fn wf(&self) -> bool {
        self@.wf()
    }

    /// A store that has never held a record.
    pub fn new() -> (store: Self)
        ensures
            store@ == StoreView::empty(),
            store.wf(),
    {
        Store {
            themes: Table::new(),
            objectives: Table::new(),
            keyresults: Table::new(),
            initiatives: Table::new(),
            projects: Table::new(),
            tasks: Table::new(),
            measurements: Table::new(),
        }
    }

    /// The table of themes.
    pub fn themes(&self) -> (table: &Table<Theme>)
        ensures
            table@ == self@.themes,
    {
        &self.themes
    }

    /// The table of objectives.
    pub fn objectives(&self) -> (table: &Table<Objective>)
        ensures
            table@ == self@.objectives,
    {
        &self.objectives
    }

    /// The table of key results.
    pub fn keyresults(&self) -> (table: &Table<KeyResult>)
        ensures
            table@ == self@.keyresults,
    {
        &self.keyresults
    }

    /// The table of initiatives.
    pub fn initiatives(&self) -> (table: &Table<Initiative>)
        ensures
            table@ == self@.initiatives,
    {
        &self.initiatives
    }

    /// The table of projects.
    pub fn projects(&self) -> (table: &Table<Project>)
        ensures
            table@ == self@.projects,
    {
        &self.projects
    }

    /// The table of tasks.
    pub fn tasks(&self) -> (table: &Table<Task>)
        ensures
            table@ == self@.tasks,
    {
        &self.tasks
    }

    /// The table of measurements.
    pub fn measurements(&self) -> (table: &Table<Measurement>)
        ensures
            table@ == self@.measurements,
    {
        &self.measurements
    }

    /// Whether a record of the kind has the id.
    pub fn contains(&self, kind: ResourceKind, id: i32) -> (found: bool)
        requires
            self.wf(),
        ensures
            found == self@.contains(kind, id),
    {
        match kind {
            ResourceKind::Theme => self.themes.contains(id),
            ResourceKind::Objective => self.objectives.contains(id),
            ResourceKind::KeyResult => self.keyresults.contains(id),
            ResourceKind::Initiative => self.initiatives.contains(id),
            ResourceKind::Project => self.projects.contains(id),
            ResourceKind::Task => self.tasks.contains(id),
            ResourceKind::Measurement => self.measurements.contains(id),
        }
    }

    /// The record of the kind that has the id. Fails with the error that
    /// says that no record of the kind has it, exactly when none has.
    pub fn get(&self, kind: ResourceKind, id: i32) -> (found: Result<Entity, CustomError>)
        requires
            self.wf(),
        ensures
            found == (match self@.get(kind, id) {
                Some(entity) => Ok::<Entity, CustomError>(entity),
                None => Err(CustomError::spec_not_found(kind)),
            }),
    {
        let found = match kind {
            ResourceKind::Theme => match self.themes.get(id) {
                Some(row) => Some(Entity::Theme(row)),
                None => None,
            },
            ResourceKind::Objective => match self.objectives.get(id) {
                Some(row) => Some(Entity::Objective(row)),
                None => None,
            },
            ResourceKind::KeyResult => match self.keyresults.get(id) {
                Some(row) => Some(Entity::KeyResult(row)),
                None => None,
            },
            ResourceKind::Initiative => match self.initiatives.get(id) {
                Some(row) => Some(Entity::Initiative(row)),
                None => None,
            },
            ResourceKind::Project => match self.projects.get(id) {
                Some(row) => Some(Entity::Project(row)),
                None => None,
            },
            ResourceKind::Task => match self.tasks.get(id) {
                Some(row) => Some(Entity::Task(row)),
                None => None,
            },
            ResourceKind::Measurement => match self.measurements.get(id) {
                Some(row) => Some(Entity::Measurement(row)),
                None => None,
            },
        };
        match found {
            Some(entity) => Ok(entity),
            None => Err(CustomError::not_found(kind)),
        }
    }

    /// The records of the kind `child_kind` that hang under the record with
    /// the id `parent_id`, in ascending order of id. A parent without such
    /// children, and one that does not exist, has none: the list is empty.
    pub fn list_children(&self, parent_id: i32, child_kind: ResourceKind) -> (children: Vec<
        Entity,
    >)
        ensures
            children@ == self@.children(parent_id, child_kind),
    {
        match child_kind {
            ResourceKind::Theme => Vec::new(),
            ResourceKind::Objective => to_entities(&self.objectives.children(parent_id)),
            ResourceKind::KeyResult => to_entities(&self.keyresults.children(parent_id)),
            ResourceKind::Initiative => to_entities(&self.initiatives.children(parent_id)),
            ResourceKind::Project => to_entities(&self.projects.children(parent_id)),
            ResourceKind::Task => to_entities(&self.tasks.children(parent_id)),
            ResourceKind::Measurement => to_entities(&self.measurements.children(parent_id)),
        }
    }

    /// The id of the record under which the record of the kind with the id
    /// hangs. A theme hangs under nothing, and so does a record that is not
    /// there.
    pub fn parent_of(&self, kind: ResourceKind, id: i32) -> (parent: Option<i32>)
        requires
            self.wf(),
        ensures
            parent == (match self@.get(kind, id) {
                Some(entity) => entity.spec_parent_id(),
                None => None,
            }),
    {
        match kind {
            ResourceKind::Theme => None,
            ResourceKind::Objective => self.objectives.parent_of(id),
            ResourceKind::KeyResult => self.keyresults.parent_of(id),
            ResourceKind::Initiative => self.initiatives.parent_of(id),
            ResourceKind::Project => self.projects.parent_of(id),
            ResourceKind::Task => self.tasks.parent_of(id),
            ResourceKind::Measurement => self.measurements.parent_of(id),
        }
    }

    /// Works the status of the project with the id out anew from its tasks.
    fn rollup(&mut self, project_id: i32)
        requires
            old(self)@.tables_wf(),
        ensures
            final(self)@ == old(self)@.rolled_up(project_id),
    {
        match self.projects.get(project_id) {
            Some(project) => {
                let tasks = self.tasks.children(project_id);
                let status = aggregate(&statuses_of(&tasks));
                let mut project = project;
                project.project_status = status;
                self.projects.replace(project);
            },
            None => {},
        }
    }

    /// Works the status of the project with the id out anew from its tasks.
    /// In a store at rest every project already has that status, so the
    /// call changes nothing, however often it is made.
    pub fn recompute(&mut self, project_id: i32)
        requires
            old(self).wf(),
        ensures
            final(self)@ == old(self)@.rolled_up(project_id),
            final(self)@ == old(self)@,
            final(self).wf(),
    {
        proof {
            self@.lemma_rolled_up_at_rest(project_id);
        }
        self.rollup(project_id);
    }

    /// Makes a record of the kind under `parent`, at the time `now`, and
    /// returns its id.
    ///
    /// Fails with `ParentNotFound` when the record may not be made under
    /// `parent`, and with `InternalServerError` when it may but the table of
    /// its kind has no id left to give. A call that fails changes nothing.
    pub fn create(
        &mut self,
        kind: ResourceKind,
        title: String,
        parent: Option<i32>,
        now: Timestamp,
    ) -> (made: Result<i32, CustomError>)
        requires
            old(self).wf(),
        ensures
            final(self).wf(),
            match made {
                Ok(id) => {
                    &&& old(self)@.create_error(kind, parent) is None
                    &&& id == old(self)@.next_id(kind)
                    &&& final(self)@ == old(self)@.created(kind, title, parent, now)
                },
                Err(error) => {
                    &&& old(self)@.create_error(kind, parent) == Some(error)
                    &&& final(self)@ == old(self)@
                },
            },
    {
        let parent_exists = match kind.parent() {
            None => parent.is_none(),
            Some(parent_kind) => match parent {
                Some(parent_id) => self.contains(parent_kind, parent_id),
                None => false,
            },
        };
        if !parent_exists {
            return Err(CustomError::ParentNotFound);
        }
        let fresh = match kind {
            ResourceKind::Theme => self.themes.next_id(),
            ResourceKind::Objective => self.objectives.next_id(),
            ResourceKind::KeyResult => self.keyresults.next_id(),
            ResourceKind::Initiative => self.initiatives.next_id(),
            ResourceKind::Project => self.projects.next_id(),
            ResourceKind::Task => self.tasks.next_id(),
            ResourceKind::Measurement => self.measurements.next_id(),
        };
        let id = match fresh {
            Some(id) => id,
            None => {
                return Err(CustomError::InternalServerError);
            },
        };
        proof {
            self@.lemma_created_wf(kind, title, parent, now);
        }
        match kind {
            ResourceKind::Theme => {
                self.themes.insert(Theme { theme_id: id, title, theme_status: Status::NotStarted });
            },
            ResourceKind::Objective => {
                self.objectives.insert(
                    Objective {
                        objective_id: id,
                        title,
                        theme_id: parent.unwrap(),
                        created_at: Some(now),
                        updated_at: None,
                    },
                );
            },
            ResourceKind::KeyResult => {
                self.keyresults.insert(
                    KeyResult {
                        keyresult_id: id,
                        title,
                        objective_id: parent.unwrap(),
                        created_at: Some(now),
                        updated_at: None,
                    },
                );
            },
            ResourceKind::Initiative => {
                self.initiatives.insert(
                    Initiative {
                        initiative_id: id,
                        title,
                        objective_id: parent.unwrap(),
                        initiative_status: Status::NotStarted,
                        created_at: Some(now),
                        updated_at: None,
                    },
                );
            },
            ResourceKind::Project => {
                self.projects.insert(
                    Project {
                        project_id: id,
                        title,
                        project_status: Status::NotStarted,
                        objective_id: parent.unwrap(),
                        created_at: Some(now),
                        updated_at: None,
                    },
                );
            },
            ResourceKind::Task => {
                let project_id = parent.unwrap();
                self.tasks.insert(
                    Task {
                        task_id: id,
                        title,
                        task_status: Status::NotStarted,
                        project_id,
                        created_at: Some(now),
                        updated_at: None,
                    },
                );
                self.rollup(project_id);
            },
            ResourceKind::Measurement => {
                self.measurements.insert(
                    Measurement {
                        measurement_id: id,
                        measurement: title,
                        keyresult_id: parent.unwrap(),
                        created_at: Some(now),
                        updated_at: None,
                    },
                );
            },
        }
        Ok(id)
    }

    /// Applies the write `patch`, at the time `now`, to the record of the
    /// kind that has the id, and returns the record as it then stands.
    ///
    /// Fails with the error that says that no record of the kind has the id,
    /// exactly when none has; the store is then as it was.
    pub fn update(&mut self, kind: ResourceKind, id: i32, patch: Patch, now: Timestamp) -> (changed:
        Result<Entity, CustomError>)
        requires
            old(self).wf(),
        ensures
            final(self).wf(),
            final(self)@ == old(self)@.updated(kind, id, patch, now),
            match changed {
                Ok(entity) => {
                    &&& old(self)@.contains(kind, id)
                    &&& final(self)@.get(kind, id) == Some(entity)
                },
                Err(error) => {
                    &&& !old(self)@.contains(kind, id)
                    &&& error == CustomError::spec_not_found(kind)
                },
            },
    {
        proof {
            self@.lemma_updated_wf(kind, id, patch, now);
        }
        let Patch { title: new_title, status: new_status } = patch;
        let changed = match kind {
            ResourceKind::Theme => match self.themes.get(id) {
                Some(mut row) => {
                    row.title = title_over(new_title, row.title);
                    proof {
                        self.themes@.lemma_replaced_find(row, id);
                    }
                    self.themes.replace(row.clone());
                    Some(Entity::Theme(row))
                },
                None => None,
            },
            ResourceKind::Objective => match self.objectives.get(id) {
                Some(mut row) => {
                    row.title = title_over(new_title, row.title);
                    row.updated_at = Some(now);
                    proof {
                        self.objectives@.lemma_replaced_find(row, id);
                    }
                    self.objectives.replace(row.clone());
                    Some(Entity::Objective(row))
                },
                None => None,
            },
            ResourceKind::KeyResult => match self.keyresults.get(id) {
                Some(mut row) => {
                    row.title = title_over(new_title, row.title);
                    row.updated_at = Some(now);
                    proof {
                        self.keyresults@.lemma_replaced_find(row, id);
                    }
                    self.keyresults.replace(row.clone());
                    Some(Entity::KeyResult(row))
                },
                None => None,
            },
            ResourceKind::Initiative => match self.initiatives.get(id) {
                Some(mut row) => {
                    row.title = title_over(new_title, row.title);
                    row.initiative_status = status_over(new_status, row.initiative_status);
                    row.updated_at = Some(now);
                    proof {
                        self.initiatives@.lemma_replaced_find(row, id);
                    }
                    self.initiatives.replace(row.clone());
                    Some(Entity::Initiative(row))
                },
                None => None,
            },
            ResourceKind::Project => match self.projects.get(id) {
                Some(mut row) => {
                    row.title = title_over(new_title, row.title);
                    row.updated_at = Some(now);
                    proof {
                        self.projects@.lemma_replaced_find(row, id);
                    }
                    self.projects.replace(row.clone());
                    Some(Entity::Project(row))
                },
                None => None,
            },
            ResourceKind::Task => match self.tasks.get(id) {
                Some(mut row) => {
                    row.title = title_over(new_title, row.title);
                    row.task_status = status_over(new_status, row.task_status);
                    row.updated_at = Some(now);
                    proof {
                        self.tasks@.lemma_replaced_find(row, id);
                    }
                    self.tasks.replace(row.clone());
                    self.rollup(row.project_id);
                    Some(Entity::Task(row))
                },
                None => None,
            },
            ResourceKind::Measurement => match self.measurements.get(id) {
                Some(mut row) => {
                    row.measurement = title_over(new_title, row.measurement);
                    row.updated_at = Some(now);
                    proof {
                        self.measurements@.lemma_replaced_find(row, id);
                    }
                    self.measurements.replace(row.clone());
                    Some(Entity::Measurement(row))
                },
                None => None,
            },
        };
        match changed {
            Some(entity) => Ok(entity),
            None => Err(CustomError::not_found(kind)),
        }
    }

    /// Takes out the record of the kind that has the id. The records below
    /// it stay where they are. Where no record of the kind has the id, the
    /// call changes nothing: it cannot fail.
    pub fn delete(&mut self, kind: ResourceKind, id: i32)
        requires
            old(self).wf(),
        ensures
            final(self).wf(),
            final(self)@ == old(self)@.removed(kind, id),
    {
        proof {
            self@.lemma_removed_wf(kind, id);
        }
        match kind {
            ResourceKind::Theme => self.themes.remove(id),
            ResourceKind::Objective => self.objectives.remove(id),
            ResourceKind::KeyResult => self.keyresults.remove(id),
            ResourceKind::Initiative => self.initiatives.remove(id),
            ResourceKind::Project => self.projects.remove(id),
            ResourceKind::Task => {
                if self.tasks.contains(id) {
                    let project_id = self.tasks.parent_of(id);
                    self.tasks.remove(id);
                    match project_id {
                        Some(project_id) => self.rollup(project_id),
                        None => {},
                    }
                }
            },
            ResourceKind::Measurement => self.measurements.remove(id),
        }
    }
}

} // verus!
