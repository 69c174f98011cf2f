//! The records of the goal hierarchy.
//!
//! A theme is the root. Objectives hang under a theme; key results,
//! initiatives and projects under an objective; measurements under a key
//! result and tasks under a project. Every record is plain data: the rules
//! that tie the records together live with the store.

use crate::table::Row;
use vstd::prelude::*;

verus! {

/// How far a unit of work has come.
#[derive(Debug, PartialEq, Eq, Hash, Clone, Copy, Structural)]
pub enum Status {
    NotStarted,
    InProgress,
    Completed,
}

impl Status {
    /// The words shown for a status.
    pub open spec fn spec_label(self) -> Seq<char> {
        match self {
            Status::NotStarted => "Not Started"@,
            Status::InProgress => "In Progress"@,
            Status::Completed => "Completed"@,
        }
    }

    /// The words shown for a status.
    pub fn label(&self) -> (text: String)
        ensures
            text@ == self.spec_label(),
    {
        match self {
            Status::NotStarted => String::from_str("Not Started"),
            Status::InProgress => String::from_str("In Progress"),
            Status::Completed => String::from_str("Completed"),
        }
    }
}

/// An instant on the UTC time line: whole seconds since the Unix epoch, and
/// the nanoseconds that have passed within that second.
#[derive(Debug, PartialEq, Eq, Hash, Clone, Copy, Structural)]
pub struct Timestamp {
    pub secs: i64,
    pub nanos: u32,
}

/// The seven kinds of record, from the root of the hierarchy to its leaves.
#[derive(Debug, PartialEq, Eq, Hash, Clone, Copy, Structural)]
pub enum ResourceKind {
    Theme,
    Objective,
    KeyResult,
    Initiative,
    Project,
    Task,
    Measurement,
}

impl ResourceKind {
    /// The kind under which a record of this kind hangs; a theme hangs under
    /// nothing.
    pub open spec fn spec_parent(self) -> Option<ResourceKind> {
        match self {
            ResourceKind::Theme => None,
            ResourceKind::Objective => Some(ResourceKind::Theme),
            ResourceKind::KeyResult => Some(ResourceKind::Objective),
            ResourceKind::Initiative => Some(ResourceKind::Objective),
            ResourceKind::Project => Some(ResourceKind::Objective),
            ResourceKind::Task => Some(ResourceKind::Project),
            ResourceKind::Measurement => Some(ResourceKind::KeyResult),
        }
    }

    /// The kind under which a record of this kind hangs.
    #[verifier::when_used_as_spec(spec_parent)]
    pub fn parent(self) -> (parent: Option<ResourceKind>)
        ensures
            parent == self.spec_parent(),
    {
        match self {
            ResourceKind::Theme => None,
            ResourceKind::Objective => Some(ResourceKind::Theme),
            ResourceKind::KeyResult => Some(ResourceKind::Objective),
            ResourceKind::Initiative => Some(ResourceKind::Objective),
            ResourceKind::Project => Some(ResourceKind::Objective),
            ResourceKind::Task => Some(ResourceKind::Project),
            ResourceKind::Measurement => Some(ResourceKind::KeyResult),
        }
    }

    /// Whether records of this kind carry a status at all.
    pub open spec fn spec_has_status(self) -> bool {
        self == ResourceKind::Theme || self == ResourceKind::Initiative || self
            == ResourceKind::Project || self == ResourceKind::Task
    }

    /// Whether records of this kind carry a status at all.
    #[verifier::when_used_as_spec(spec_has_status)]
    pub fn has_status(self) -> (yes: bool)
        ensures
            yes == self.spec_has_status(),
    {
        match self {
            ResourceKind::Theme | ResourceKind::Initiative | ResourceKind::Project
            | ResourceKind::Task => true,
            _ => false,
        }
    }

    /// Whether a write may set the status of a record of this kind. Only the
    /// leaves that carry a status take it from a person: initiatives and
    /// tasks.
    pub open spec fn spec_status_is_settable(self) -> bool {
        self == ResourceKind::Initiative || self == ResourceKind::Task
    }

    /// Whether a write may set the status of a record of this kind.
    #[verifier::when_used_as_spec(spec_status_is_settable)]
    pub fn status_is_settable(self) -> (yes: bool)
        ensures
            yes == self.spec_status_is_settable(),
    {
        match self {
            ResourceKind::Initiative | ResourceKind::Task => true,
            _ => false,
        }
    }

    /// Whether the status of a record of this kind is worked out from the
    /// records below it.
    pub open spec fn spec_status_is_derived(self) -> bool {
        self == ResourceKind::Theme || self == ResourceKind::Project
    }

    /// Whether the status of a record of this kind is worked out from the
    /// records below it.
    #[verifier::when_used_as_spec(spec_status_is_derived)]
    pub fn status_is_derived(self) -> (yes: bool)
        ensures
            yes == self.spec_status_is_derived(),
    {
        match self {
            ResourceKind::Theme | ResourceKind::Project => true,
            _ => false,
        }
    }

    /// Whether records of this kind carry the times of their creation and of
    /// their last change. Themes carry neither.
    pub open spec fn spec_has_timestamps(self) -> bool {
        self != ResourceKind::Theme
    }

    /// Whether records of this kind carry the times of their creation and of
    /// their last change.
    #[verifier::when_used_as_spec(spec_has_timestamps)]
    pub fn has_timestamps(self) -> (yes: bool)
        ensures
            yes == self.spec_has_timestamps(),
    {
        match self {
            ResourceKind::Theme => false,
            _ => true,
        }
    }
}

/// A long-running area of focus: the root of the hierarchy.
///
/// The status of a theme is derived from the statuses of the records
/// directly below it. Those are objectives, which carry none, so a theme
/// stays `NotStarted`: no write sets it.
#[derive(Debug)]
pub struct Theme {
    pub theme_id: i32,
    pub title: String,
    pub theme_status: Status,
}

/// What a client sends to have a theme made.
#[derive(Debug)]
pub struct CreateTheme {
    pub new_title: String,
}

/// What a client sends to have a theme changed. The status is read and not
/// applied: that of a theme is derived.
#[derive(Debug)]
pub struct UpdateTheme {
    pub title: String,
    pub status: Status,
}

/// A stretch goal under a theme.
#[derive(Debug)]
pub struct Objective {
    pub objective_id: i32,
    pub title: String,
    pub theme_id: i32,
    pub created_at: Option<Timestamp>,
    pub updated_at: Option<Timestamp>,
}

/// What a client sends to have an objective made.
#[derive(Debug)]
pub struct CreateObjective {
    pub new_title: String,
    pub theme_id: i32,
}

/// What a client sends to have an objective changed.
#[derive(Debug)]
pub struct UpdateObjective {
    pub title: String,
}

/// A measurable target under an objective.
#[derive(Debug)]
pub struct KeyResult {
    pub keyresult_id: i32,
    pub title: String,
    pub objective_id: i32,
    pub created_at: Option<Timestamp>,
    pub updated_at: Option<Timestamp>,
}

/// What a client sends to have a key result made.
#[derive(Debug)]
pub struct CreateKeyResult {
    pub new_title: String,
    pub objective_id: i32,
}

/// What a client sends to have a key result changed.
#[derive(Debug)]
pub struct UpdateKeyResult {
    pub title: String,
}

/// A recurring effort under an objective. Its status is set by hand.
#[derive(Debug)]
pub struct Initiative {
    pub initiative_id: i32,
    pub title: String,
    pub objective_id: i32,
    pub initiative_status: Status,
    pub created_at: Option<Timestamp>,
    pub updated_at: Option<Timestamp>,
}

/// What a client sends to have an initiative made.
#[derive(Debug)]
pub struct CreateInitiative {
    pub new_title: String,
    pub objective_id: i32,
}

/// What a client sends to have an initiative changed.
#[derive(Debug)]
pub struct UpdateInitiative {
    pub title: String,
    pub status: Status,
}

/// A one-off effort under an objective. Its status is derived from the
/// statuses of its tasks.
#[derive(Debug)]
pub struct Project {
    pub project_id: i32,
    pub title: String,
    pub project_status: Status,
    pub objective_id: i32,
    pub created_at: Option<Timestamp>,
    pub updated_at: Option<Timestamp>,
}

/// What a client sends to have a project made.
#[derive(Debug)]
pub struct CreateProject {
    pub new_title: String,
    pub objective_id: i32,
}

/// What a client sends to have a project changed. The status is read and
/// not applied: that of a project is derived.
#[derive(Debug)]
pub struct UpdateProject {
    pub title: String,
    pub status: Status,
}

/// A unit of work under a project. Its status is set by hand.
#[derive(Debug)]
pub struct Task {
    pub task_id: i32,
    pub title: String,
    pub task_status: Status,
    pub project_id: i32,
    pub created_at: Option<Timestamp>,
    pub updated_at: Option<Timestamp>,
}

/// What a client sends to have a task made.
#[derive(Debug)]
pub struct CreateTask {
    pub new_title: String,
    pub project_id: i32,
}

/// What a client sends to have a task changed.
#[derive(Debug)]
pub struct UpdateTask {
    pub title: String,
    pub status: Status,
}

/// A data point recorded under a key result.
#[derive(Debug)]
pub struct Measurement {
    pub measurement_id: i32,
    pub measurement: String,
    pub keyresult_id: i32,
    pub created_at: Option<Timestamp>,
    pub updated_at: Option<Timestamp>,
}

/// What a client sends to have a measurement made.
#[derive(Debug)]
pub struct CreateMeasurement {
    pub new_title: String,
    pub keyresult_id: i32,
}

/// What a client sends to have a measurement changed.
#[derive(Debug)]
pub struct UpdateMeasurement {
    pub title: String,
}

impl Clone for Theme {
    fn clone(&self) -> (copy: Self)
        ensures
            copy == *self,
    {
        Theme { theme_id: self.theme_id, title: self.title.clone(), theme_status: self.theme_status }
    }
}

impl Clone for Objective {
    fn clone(&self) -> (copy: Self)
        ensures
            copy == *self,
    {
        Objective {
            objective_id: self.objective_id,
            title: self.title.clone(),
            theme_id: self.theme_id,
            created_at: self.created_at,
            updated_at: self.updated_at,
        }
    }
}

impl Clone for KeyResult {
    fn clone(&self) -> (copy: Self)
        ensures
            copy == *self,
    {
        KeyResult {
            keyresult_id: self.keyresult_id,
            title: self.title.clone(),
            objective_id: self.objective_id,
            created_at: self.created_at,
            updated_at: self.updated_at,
        }
    }
}

impl Clone for Initiative {
    fn clone(&self) -> (copy: Self)
        ensures
            copy == *self,
    {
        Initiative {
            initiative_id: self.initiative_id,
            title: self.title.clone(),
            objective_id: self.objective_id,
            initiative_status: self.initiative_status,
            created_at: self.created_at,
            updated_at: self.updated_at,
        }
    }
}

impl Clone for Project {
    fn clone(&self) -> (copy: Self)
        ensures
            copy == *self,
    {
        Project {
            project_id: self.project_id,
            title: self.title.clone(),
            project_status: self.project_status,
            objective_id: self.objective_id,
            created_at: self.created_at,
            updated_at: self.updated_at,
        }
    }
}

impl Clone for Task {
    fn clone(&self) -> (copy: Self)
        ensures
            copy == *self,
    {
        Task {
            task_id: self.task_id,
            title: self.title.clone(),
            task_status: self.task_status,
            project_id: self.project_id,
            created_at: self.created_at,
            updated_at: self.updated_at,
        }
    }
}

impl Clone for Measurement {
    fn clone(&self) -> (copy: Self)
        ensures
            copy == *self,
    {
        Measurement {
            measurement_id: self.measurement_id,
            measurement: self.measurement.clone(),
            keyresult_id: self.keyresult_id,
            created_at: self.created_at,
            updated_at: self.updated_at,
        }
    }
}

/// A record of any kind.
#[derive(Debug)]
pub enum Entity {
    Theme(Theme),
    Objective(Objective),
    KeyResult(KeyResult),
    Initiative(Initiative),
    Project(Project),
    Task(Task),
    Measurement(Measurement),
}

impl Entity {
    /// The kind of the record.
    pub open spec fn spec_kind(&self) -> ResourceKind {
        match self {
            Entity::Theme(_) => ResourceKind::Theme,
            Entity::Objective(_) => ResourceKind::Objective,
            Entity::KeyResult(_) => ResourceKind::KeyResult,
            Entity::Initiative(_) => ResourceKind::Initiative,
            Entity::Project(_) => ResourceKind::Project,
            Entity::Task(_) => ResourceKind::Task,
            Entity::Measurement(_) => ResourceKind::Measurement,
        }
    }

    /// The kind of the record.
    #[verifier::when_used_as_spec(spec_kind)]
    pub fn kind(&self) -> (kind: ResourceKind)
        ensures
            kind == self.spec_kind(),
    {
        match self {
            Entity::Theme(_) => ResourceKind::Theme,
            Entity::Objective(_) => ResourceKind::Objective,
            Entity::KeyResult(_) => ResourceKind::KeyResult,
            Entity::Initiative(_) => ResourceKind::Initiative,
            Entity::Project(_) => ResourceKind::Project,
            Entity::Task(_) => ResourceKind::Task,
            Entity::Measurement(_) => ResourceKind::Measurement,
        }
    }

    /// The id of the record, unique among the records of its kind.
    pub open spec fn spec_id(&self) -> i32 {
        match self {
            Entity::Theme(t) => t.theme_id,
            Entity::Objective(o) => o.objective_id,
            Entity::KeyResult(k) => k.keyresult_id,
            Entity::Initiative(i) => i.initiative_id,
            Entity::Project(p) => p.project_id,
            Entity::Task(t) => t.task_id,
            Entity::Measurement(m) => m.measurement_id,
        }
    }

    /// The id of the record, unique among the records of its kind.
    #[verifier::when_used_as_spec(spec_id)]
    pub fn id(&self) -> (id: i32)
        ensures
            id == self.spec_id(),
    {
        match self {
            Entity::Theme(t) => t.theme_id,
            Entity::Objective(o) => o.objective_id,
            Entity::KeyResult(k) => k.keyresult_id,
            Entity::Initiative(i) => i.initiative_id,
            Entity::Project(p) => p.project_id,
            Entity::Task(t) => t.task_id,
            Entity::Measurement(m) => m.measurement_id,
        }
    }

    /// The id of the record under which this one hangs.
    pub open spec fn spec_parent_id(&self) -> Option<i32> {
        match self {
            Entity::Theme(_) => None,
            Entity::Objective(o) => Some(o.theme_id),
            Entity::KeyResult(k) => Some(k.objective_id),
            Entity::Initiative(i) => Some(i.objective_id),
            Entity::Project(p) => Some(p.objective_id),
            Entity::Task(t) => Some(t.project_id),
            Entity::Measurement(m) => Some(m.keyresult_id),
        }
    }

    /// The id of the record under which this one hangs.
    #[verifier::when_used_as_spec(spec_parent_id)]
    pub fn parent_id(&self) -> (parent: Option<i32>)
        ensures
            parent == self.spec_parent_id(),
    {
        match self {
            Entity::Theme(_) => None,
            Entity::Objective(o) => Some(o.theme_id),
            Entity::KeyResult(k) => Some(k.objective_id),
            Entity::Initiative(i) => Some(i.objective_id),
            Entity::Project(p) => Some(p.objective_id),
            Entity::Task(t) => Some(t.project_id),
            Entity::Measurement(m) => Some(m.keyresult_id),
        }
    }

    /// The text of the record: its title, or what a measurement recorded.
    pub open spec fn spec_title(&self) -> String {
        match self {
            Entity::Theme(t) => t.title,
            Entity::Objective(o) => o.title,
            Entity::KeyResult(k) => k.title,
            Entity::Initiative(i) => i.title,
            Entity::Project(p) => p.title,
            Entity::Task(t) => t.title,
            Entity::Measurement(m) => m.measurement,
        }
    }

    /// The text of the record: its title, or what a measurement recorded.
    #[verifier::when_used_as_spec(spec_title)]
    pub fn title(&self) -> (title: String)
        ensures
            title == self.spec_title(),
    {
        match self {
            Entity::Theme(t) => t.title.clone(),
            Entity::Objective(o) => o.title.clone(),
            Entity::KeyResult(k) => k.title.clone(),
            Entity::Initiative(i) => i.title.clone(),
            Entity::Project(p) => p.title.clone(),
            Entity::Task(t) => t.title.clone(),
            Entity::Measurement(m) => m.measurement.clone(),
        }
    }

    /// The status of the record, where its kind carries one.
    pub open spec fn spec_status(&self) -> Option<Status> {
        match self {
            Entity::Theme(t) => Some(t.theme_status),
            Entity::Initiative(i) => Some(i.initiative_status),
            Entity::Project(p) => Some(p.project_status),
            Entity::Task(t) => Some(t.task_status),
            _ => None,
        }
    }

    /// The status of the record, where its kind carries one.
    #[verifier::when_used_as_spec(spec_status)]
    pub fn status(&self) -> (status: Option<Status>)
        ensures
            status == self.spec_status(),
    {
        match self {
            Entity::Theme(t) => Some(t.theme_status),
            Entity::Initiative(i) => Some(i.initiative_status),
            Entity::Project(p) => Some(p.project_status),
            Entity::Task(t) => Some(t.task_status),
            _ => None,
        }
    }

    /// When the record was made, where its kind keeps that.
    pub open spec fn spec_created_at(&self) -> Option<Timestamp> {
        match self {
            Entity::Theme(_) => None,
            Entity::Objective(o) => o.created_at,
            Entity::KeyResult(k) => k.created_at,
            Entity::Initiative(i) => i.created_at,
            Entity::Project(p) => p.created_at,
            Entity::Task(t) => t.created_at,
            Entity::Measurement(m) => m.created_at,
        }
    }

    /// When the record was made, where its kind keeps that.
    #[verifier::when_used_as_spec(spec_created_at)]
    pub fn created_at(&self) -> (at: Option<Timestamp>)
        ensures
            at == self.spec_created_at(),
    {
        match self {
            Entity::Theme(_) => None,
            Entity::Objective(o) => o.created_at,
            Entity::KeyResult(k) => k.created_at,
            Entity::Initiative(i) => i.created_at,
            Entity::Project(p) => p.created_at,
            Entity::Task(t) => t.created_at,
            Entity::Measurement(m) => m.created_at,
        }
    }

    /// When the record was last changed, where its kind keeps that.
    pub open spec fn spec_updated_at(&self) -> Option<Timestamp> {
        match self {
            Entity::Theme(_) => None,
            Entity::Objective(o) => o.updated_at,
            Entity::KeyResult(k) => k.updated_at,
            Entity::Initiative(i) => i.updated_at,
            Entity::Project(p) => p.updated_at,
            Entity::Task(t) => t.updated_at,
            Entity::Measurement(m) => m.updated_at,
        }
    }

    /// When the record was last changed, where its kind keeps that.
    #[verifier::when_used_as_spec(spec_updated_at)]
    pub fn updated_at(&self) -> (at: Option<Timestamp>)
        ensures
            at == self.spec_updated_at(),
    {
        match self {
            Entity::Theme(_) => None,
            Entity::Objective(o) => o.updated_at,
            Entity::KeyResult(k) => k.updated_at,
            Entity::Initiative(i) => i.updated_at,
            Entity::Project(p) => p.updated_at,
            Entity::Task(t) => t.updated_at,
            Entity::Measurement(m) => m.updated_at,
        }
    }
}

impl Row for Theme {
    open spec fn key(&self) -> i32 {
        self.theme_id
    }

    open spec fn parent_key(&self) -> Option<i32> {
        None
    }

    open spec fn entity(&self) -> Entity {
        Entity::Theme(*self)
    }

    fn id(&self) -> (id: i32) {
        self.theme_id
    }

    fn parent_id(&self) -> (parent: Option<i32>) {
        None
    }

    fn duplicate(&self) -> (copy: Self) {
        self.clone()
    }

    fn to_entity(&self) -> (entity: Entity) {
        Entity::Theme(self.clone())
    }
}

impl Row for Objective {
    open spec fn key(&self) -> i32 {
        self.objective_id
    }

    open spec fn parent_key(&self) -> Option<i32> {
        Some(self.theme_id)
    }

    open spec fn entity(&self) -> Entity {
        Entity::Objective(*self)
    }

    fn id(&self) -> (id: i32) {
        self.objective_id
    }

    fn parent_id(&self) -> (parent: Option<i32>) {
        Some(self.theme_id)
    }

    fn duplicate(&self) -> (copy: Self) {
        self.clone()
    }

    fn to_entity(&self) -> (entity: Entity) {
        Entity::Objective(self.clone())
    }
}

impl Row for KeyResult {
    open spec fn key(&self) -> i32 {
        self.keyresult_id
    }

    open spec fn parent_key(&self) -> Option<i32> {
        Some(self.objective_id)
    }

    open spec fn entity(&self) -> Entity {
        Entity::KeyResult(*self)
    }

    fn id(&self) -> (id: i32) {
        self.keyresult_id
    }

    fn parent_id(&self) -> (parent: Option<i32>) {
        Some(self.objective_id)
    }

    fn duplicate(&self) -> (copy: Self) {
        self.clone()
    }

    fn to_entity(&self) -> (entity: Entity) {
        Entity::KeyResult(self.clone())
    }
}

impl Row for Initiative {
    open spec fn key(&self) -> i32 {
        self.initiative_id
    }

    open spec fn parent_key(&self) -> Option<i32> {
        Some(self.objective_id)
    }

    open spec fn entity(&self) -> Entity {
        Entity::Initiative(*self)
    }

    fn id(&self) -> (id: i32) {
        self.initiative_id
    }

    fn parent_id(&self) -> (parent: Option<i32>) {
        Some(self.objective_id)
    }

    fn duplicate(&self) -> (copy: Self) {
        self.clone()
    }

    fn to_entity(&self) -> (entity: Entity) {
        Entity::Initiative(self.clone())
    }
}

impl Row for Project {
    open spec fn key(&self) -> i32 {
        self.project_id
    }

    open spec fn parent_key(&self) -> Option<i32> {
        Some(self.objective_id)
    }

    open spec fn entity(&self) -> Entity {
        Entity::Project(*self)
    }

    fn id(&self) -> (id: i32) {
        self.project_id
    }

    fn parent_id(&self) -> (parent: Option<i32>) {
        Some(self.objective_id)
    }

    fn duplicate(&self) -> (copy: Self) {
        self.clone()
    }

    fn to_entity(&self) -> (entity: Entity) {
        Entity::Project(self.clone())
    }
}

impl Row for Task {
    open spec fn key(&self) -> i32 {
        self.task_id
    }

    open spec fn parent_key(&self) -> Option<i32> {
        Some(self.project_id)
    }

    open spec fn entity(&self) -> Entity {
        Entity::Task(*self)
    }

    fn id(&self) -> (id: i32) {
        self.task_id
    }

    fn parent_id(&self) -> (parent: Option<i32>) {
        Some(self.project_id)
    }

    fn duplicate(&self) -> (copy: Self) {
        self.clone()
    }

    fn to_entity(&self) -> (entity: Entity) {
        Entity::Task(self.clone())
    }
}

impl Row for Measurement {
    open spec fn key(&self) -> i32 {
        self.measurement_id
    }

    open spec fn parent_key(&self) -> Option<i32> {
        Some(self.keyresult_id)
    }

    open spec fn entity(&self) -> Entity {
        Entity::Measurement(*self)
    }

    fn id(&self) -> (id: i32) {
        self.measurement_id
    }

    fn parent_id(&self) -> (parent: Option<i32>) {
        Some(self.keyresult_id)
    }

    fn duplicate(&self) -> (copy: Self) {
        self.clone()
    }

    fn to_entity(&self) -> (entity: Entity) {
        Entity::Measurement(self.clone())
    }
}

/// The fields of a write. A field that is `None` is left as it is.
#[derive(Debug)]
pub struct Patch {
    pub title: Option<String>,
    pub status: Option<Status>,
}

} // verus!
