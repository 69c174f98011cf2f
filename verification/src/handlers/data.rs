//! The operations that answer with the records themselves, not with
//! fragments: all records of one kind, in ascending order of id.

use crate::model::{Initiative, KeyResult, Measurement, Objective, Project, Task, Theme};
use crate::store::Store;
use vstd::prelude::*;

verus! {

/// All themes, with the HTTP status code 200.
pub fn get_all_themes(store: &Store) -> (answer: (u16, Vec<Theme>))
    ensures
        answer.0 == 200,
        answer.1@ == store@.themes.rows,
{
    (200, store.themes().all())
}

/// All objectives, with the HTTP status code 200.
pub fn get_all_objectives(store: &Store) -> (answer: (u16, Vec<Objective>))
    ensures
        answer.0 == 200,
        answer.1@ == store@.objectives.rows,
{
    (200, store.objectives().all())
}

/// All key results, with the HTTP status code 200.
pub fn get_all_keyresults(store: &Store) -> (answer: (u16, Vec<KeyResult>))
    ensures
        answer.0 == 200,
        answer.1@ == store@.keyresults.rows,
{
    (200, store.keyresults().all())
}

/// All initiatives, with the HTTP status code 200.
pub fn get_all_initiatives(store: &Store) -> (answer: (u16, Vec<Initiative>))
    ensures
        answer.0 == 200,
        answer.1@ == store@.initiatives.rows,
{
    (200, store.initiatives().all())
}

/// All projects, with the HTTP status code 200.
pub fn get_all_projects(store: &Store) -> (answer: (u16, Vec<Project>))
    ensures
        answer.0 == 200,
        answer.1@ == store@.projects.rows,
{
    (200, store.projects().all())
}

/// All tasks, with the HTTP status code 200.
pub fn get_all_tasks(store: &Store) -> (answer: (u16, Vec<Task>))
    ensures
        answer.0 == 200,
        answer.1@ == store@.tasks.rows,
{
    (200, store.tasks().all())
}

/// All measurements, with the HTTP status code 200.
pub fn get_all_measures(store: &Store) -> (answer: (u16, Vec<Measurement>))
    ensures
        answer.0 == 200,
        answer.1@ == store@.measurements.rows,
{
    (200, store.measurements().all())
}

} // verus!
