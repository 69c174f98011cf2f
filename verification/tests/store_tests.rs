use goal_tracker::errors::CustomError;
use goal_tracker::model::{Entity, Patch, ResourceKind, Status, Timestamp};
use goal_tracker::status::aggregate;
use goal_tracker::store::Store;

fn at(secs: i64) -> Timestamp {
    Timestamp { secs, nanos: 0 }
}

fn title(text: &str) -> Patch {
    Patch { title: Some(text.to_string()), status: None }
}

fn status(status: Status) -> Patch {
    Patch { title: None, status: Some(status) }
}

/// A store with one theme, one objective under it, and one key result and
/// one project under the objective; each has the id 1.
fn seeded() -> Store {
    let mut store = Store::new();
    assert_eq!(store.create(ResourceKind::Theme, "Physique".to_string(), None, at(1)), Ok(1));
    assert_eq!(
        store.create(ResourceKind::Objective, "Build a killer physique".to_string(), Some(1), at(2)),
        Ok(1)
    );
    assert_eq!(
        store.create(ResourceKind::KeyResult, "Bench 100 kg".to_string(), Some(1), at(3)),
        Ok(1)
    );
    assert_eq!(
        store.create(ResourceKind::Project, "Build gym routine".to_string(), Some(1), at(4)),
        Ok(1)
    );
    store
}

fn project_status(store: &Store, id: i32) -> Status {
    store.get(ResourceKind::Project, id).unwrap().status().unwrap()
}

#[test]
fn aggregate_of_no_children_is_not_started() {
    assert_eq!(aggregate(&vec![]), Status::NotStarted);
}

#[test]
fn aggregate_of_all_completed_is_completed() {
    assert_eq!(aggregate(&vec![Status::Completed]), Status::Completed);
    assert_eq!(aggregate(&vec![Status::Completed, Status::Completed]), Status::Completed);
}

#[test]
fn aggregate_of_all_not_started_is_not_started() {
    assert_eq!(aggregate(&vec![Status::NotStarted, Status::NotStarted]), Status::NotStarted);
}

#[test]
fn aggregate_of_anything_else_is_in_progress() {
    assert_eq!(aggregate(&vec![Status::InProgress]), Status::InProgress);
    assert_eq!(aggregate(&vec![Status::NotStarted, Status::Completed]), Status::InProgress);
    assert_eq!(aggregate(&vec![Status::Completed, Status::NotStarted]), Status::InProgress);
    assert_eq!(aggregate(&vec![Status::Completed, Status::InProgress]), Status::InProgress);
    assert_eq!(
        aggregate(&vec![Status::NotStarted, Status::NotStarted, Status::InProgress]),
        Status::InProgress
    );
}

#[test]
fn create_then_get_returns_what_was_made() {
    let mut store = seeded();
    let kinds = [
        (ResourceKind::Objective, 1, 2),
        (ResourceKind::KeyResult, 1, 2),
        (ResourceKind::Initiative, 1, 1),
        (ResourceKind::Project, 1, 2),
        (ResourceKind::Task, 1, 1),
        (ResourceKind::Measurement, 1, 1),
    ];
    for (kind, parent, expected_id) in kinds {
        let id = store.create(kind, "made".to_string(), Some(parent), at(77)).unwrap();
        assert_eq!(id, expected_id);
        let entity = store.get(kind, id).unwrap();
        assert_eq!(entity.kind(), kind);
        assert_eq!(entity.id(), id);
        assert_eq!(entity.title(), "made");
        assert_eq!(entity.parent_id(), Some(parent));
        assert_eq!(entity.created_at(), Some(at(77)));
        assert_eq!(entity.updated_at(), None);
        let expected_status = if kind.has_status() { Some(Status::NotStarted) } else { None };
        assert_eq!(entity.status(), expected_status);
    }
}

#[test]
fn create_theme_then_get_returns_it_not_started() {
    let mut store = Store::new();
    let id = store.create(ResourceKind::Theme, "Physique".to_string(), None, at(5)).unwrap();
    assert_eq!(id, 1);
    let entity = store.get(ResourceKind::Theme, 1).unwrap();
    assert_eq!(entity.title(), "Physique");
    assert_eq!(entity.status(), Some(Status::NotStarted));
    assert_eq!(entity.parent_id(), None);
    assert_eq!(entity.created_at(), None);
}

#[test]
fn create_under_a_missing_parent_fails_and_changes_nothing() {
    let mut store = seeded();
    let cases = [
        (ResourceKind::Objective, Some(9)),
        (ResourceKind::KeyResult, Some(9)),
        (ResourceKind::Initiative, Some(9)),
        (ResourceKind::Project, Some(9)),
        (ResourceKind::Task, Some(9)),
        (ResourceKind::Measurement, Some(9)),
        (ResourceKind::Task, None),
        (ResourceKind::Theme, Some(1)),
    ];
    for (kind, parent) in cases {
        assert_eq!(
            store.create(kind, "orphan".to_string(), parent, at(9)),
            Err(CustomError::ParentNotFound)
        );
    }
    assert_eq!(store.themes().all().len(), 1);
    assert_eq!(store.objectives().all().len(), 1);
    assert_eq!(store.keyresults().all().len(), 1);
    assert_eq!(store.initiatives().all().len(), 0);
    assert_eq!(store.projects().all().len(), 1);
    assert_eq!(store.tasks().all().len(), 0);
    assert_eq!(store.measurements().all().len(), 0);
}

#[test]
fn a_task_needs_a_project_not_an_objective() {
    let mut store = Store::new();
    store.create(ResourceKind::Theme, "t".to_string(), None, at(1)).unwrap();
    store.create(ResourceKind::Objective, "o".to_string(), Some(1), at(1)).unwrap();
    assert_eq!(
        store.create(ResourceKind::Task, "x".to_string(), Some(1), at(1)),
        Err(CustomError::ParentNotFound)
    );
}

#[test]
fn get_of_a_missing_record_names_its_kind() {
    let store = Store::new();
    let cases = [
        (ResourceKind::Theme, CustomError::ThemeNotFound),
        (ResourceKind::Objective, CustomError::ObjectiveNotFound),
        (ResourceKind::KeyResult, CustomError::KeyResultNotFound),
        (ResourceKind::Initiative, CustomError::InitiativeNotFound),
        (ResourceKind::Project, CustomError::ProjectNotFound),
        (ResourceKind::Task, CustomError::TaskNotFound),
        (ResourceKind::Measurement, CustomError::MeasurementNotFound),
    ];
    for (kind, error) in cases {
        assert_eq!(store.get(kind, 1).err(), Some(error));
        assert!(!store.contains(kind, 1));
    }
}

#[test]
fn delete_then_get_fails_and_delete_twice_is_quiet() {
    let mut store = seeded();
    store.create(ResourceKind::Task, "a".to_string(), Some(1), at(5)).unwrap();
    store.create(ResourceKind::Initiative, "i".to_string(), Some(1), at(5)).unwrap();
    store.create(ResourceKind::Measurement, "m".to_string(), Some(1), at(5)).unwrap();
    let cases = [
        (ResourceKind::Task, CustomError::TaskNotFound),
        (ResourceKind::Measurement, CustomError::MeasurementNotFound),
        (ResourceKind::Initiative, CustomError::InitiativeNotFound),
        (ResourceKind::Project, CustomError::ProjectNotFound),
        (ResourceKind::KeyResult, CustomError::KeyResultNotFound),
        (ResourceKind::Objective, CustomError::ObjectiveNotFound),
        (ResourceKind::Theme, CustomError::ThemeNotFound),
    ];
    for (kind, error) in cases {
        assert!(store.get(kind, 1).is_ok());
        store.delete(kind, 1);
        assert_eq!(store.get(kind, 1).err(), Some(error));
        store.delete(kind, 1);
        assert_eq!(store.get(kind, 1).err(), Some(error));
    }
}

#[test]
fn delete_leaves_the_other_records() {
    let mut store = seeded();
    store.create(ResourceKind::Theme, "second".to_string(), None, at(5)).unwrap();
    store.create(ResourceKind::Theme, "third".to_string(), None, at(5)).unwrap();
    store.delete(ResourceKind::Theme, 2);
    assert_eq!(store.get(ResourceKind::Theme, 1).unwrap().title(), "Physique");
    assert_eq!(store.get(ResourceKind::Theme, 3).unwrap().title(), "third");
    let ids: Vec<i32> = store.themes().all().iter().map(|t| t.theme_id).collect();
    assert_eq!(ids, vec![1, 3]);
}

#[test]
fn delete_does_not_take_the_records_below() {
    let mut store = seeded();
    store.delete(ResourceKind::Theme, 1);
    assert!(store.get(ResourceKind::Objective, 1).is_ok());
    assert_eq!(store.list_children(1, ResourceKind::Objective).len(), 1);
    assert_eq!(store.parent_of(ResourceKind::Objective, 1), Some(1));
}

#[test]
fn ids_are_not_given_twice() {
    let mut store = Store::new();
    assert_eq!(store.create(ResourceKind::Theme, "a".to_string(), None, at(1)), Ok(1));
    assert_eq!(store.create(ResourceKind::Theme, "b".to_string(), None, at(1)), Ok(2));
    store.delete(ResourceKind::Theme, 2);
    store.delete(ResourceKind::Theme, 1);
    assert_eq!(store.create(ResourceKind::Theme, "c".to_string(), None, at(1)), Ok(3));
}

#[test]
fn list_children_of_a_childless_parent_is_empty() {
    let store = seeded();
    assert!(store.list_children(1, ResourceKind::Task).is_empty());
    assert!(store.list_children(1, ResourceKind::Measurement).is_empty());
    assert!(store.list_children(1, ResourceKind::Initiative).is_empty());
    assert!(store.list_children(42, ResourceKind::Objective).is_empty());
    assert!(store.list_children(1, ResourceKind::Theme).is_empty());
}

#[test]
fn list_children_is_in_ascending_order_of_id_and_by_parent() {
    let mut store = seeded();
    store.create(ResourceKind::Project, "second".to_string(), Some(1), at(1)).unwrap();
    for (name, project) in [("a", 1), ("b", 2), ("c", 1), ("d", 2), ("e", 1)] {
        store.create(ResourceKind::Task, name.to_string(), Some(project), at(1)).unwrap();
    }
    let first: Vec<(i32, String)> =
        store.list_children(1, ResourceKind::Task).iter().map(|e| (e.id(), e.title())).collect();
    assert_eq!(
        first,
        vec![(1, "a".to_string()), (3, "c".to_string()), (5, "e".to_string())]
    );
    let second: Vec<i32> =
        store.list_children(2, ResourceKind::Task).iter().map(|e| e.id()).collect();
    assert_eq!(second, vec![2, 4]);
    store.delete(ResourceKind::Task, 3);
    let first: Vec<i32> =
        store.list_children(1, ResourceKind::Task).iter().map(|e| e.id()).collect();
    assert_eq!(first, vec![1, 5]);
    for child in store.list_children(1, ResourceKind::Task) {
        assert_eq!(child.kind(), ResourceKind::Task);
        assert_eq!(child.parent_id(), Some(1));
    }
}

#[test]
fn parent_of_reads_the_parent_id() {
    let mut store = seeded();
    store.create(ResourceKind::Task, "a".to_string(), Some(1), at(5)).unwrap();
    assert_eq!(store.parent_of(ResourceKind::Task, 1), Some(1));
    assert_eq!(store.parent_of(ResourceKind::Theme, 1), None);
    assert_eq!(store.parent_of(ResourceKind::Task, 8), None);
}

#[test]
fn project_status_follows_its_tasks() {
    let mut store = Store::new();
    let theme = store.create(ResourceKind::Theme, "Physique".to_string(), None, at(1)).unwrap();
    let objective = store
        .create(ResourceKind::Objective, "Build a killer physique".to_string(), Some(theme), at(2))
        .unwrap();
    let project = store
        .create(ResourceKind::Project, "Build gym routine".to_string(), Some(objective), at(3))
        .unwrap();
    assert_eq!(project_status(&store, project), Status::NotStarted);
    let first =
        store.create(ResourceKind::Task, "Pick exercises".to_string(), Some(project), at(4)).unwrap();
    let second =
        store.create(ResourceKind::Task, "Buy shoes".to_string(), Some(project), at(5)).unwrap();
    assert_eq!(project_status(&store, project), Status::NotStarted);
    store.update(ResourceKind::Task, first, status(Status::InProgress), at(6)).unwrap();
    store.update(ResourceKind::Task, second, status(Status::Completed), at(7)).unwrap();
    assert_eq!(project_status(&store, project), Status::InProgress);
    store.update(ResourceKind::Task, first, status(Status::Completed), at(8)).unwrap();
    assert_eq!(project_status(&store, project), Status::Completed);
}

#[test]
fn project_status_follows_added_and_removed_tasks() {
    let mut store = seeded();
    let first = store.create(ResourceKind::Task, "a".to_string(), Some(1), at(4)).unwrap();
    store.update(ResourceKind::Task, first, status(Status::Completed), at(5)).unwrap();
    assert_eq!(project_status(&store, 1), Status::Completed);
    let second = store.create(ResourceKind::Task, "b".to_string(), Some(1), at(6)).unwrap();
    assert_eq!(project_status(&store, 1), Status::InProgress);
    store.delete(ResourceKind::Task, second);
    assert_eq!(project_status(&store, 1), Status::Completed);
    store.delete(ResourceKind::Task, first);
    assert_eq!(project_status(&store, 1), Status::NotStarted);
}

#[test]
fn project_status_is_kept_apart_between_projects() {
    let mut store = seeded();
    let other = store.create(ResourceKind::Project, "other".to_string(), Some(1), at(1)).unwrap();
    let task = store.create(ResourceKind::Task, "a".to_string(), Some(other), at(1)).unwrap();
    store.update(ResourceKind::Task, task, status(Status::Completed), at(2)).unwrap();
    assert_eq!(project_status(&store, other), Status::Completed);
    assert_eq!(project_status(&store, 1), Status::NotStarted);
}

#[test]
fn recompute_changes_nothing_however_often() {
    let mut store = seeded();
    let task = store.create(ResourceKind::Task, "a".to_string(), Some(1), at(1)).unwrap();
    store.update(ResourceKind::Task, task, status(Status::InProgress), at(2)).unwrap();
    assert_eq!(project_status(&store, 1), Status::InProgress);
    store.recompute(1);
    assert_eq!(project_status(&store, 1), Status::InProgress);
    store.recompute(1);
    assert_eq!(project_status(&store, 1), Status::InProgress);
    store.recompute(99);
    assert_eq!(store.projects().all().len(), 1);
}

#[test]
fn update_applies_the_title_and_the_time() {
    let mut store = seeded();
    let changed = store.update(ResourceKind::Objective, 1, title("Get strong"), at(50)).unwrap();
    assert_eq!(changed.title(), "Get strong");
    assert_eq!(changed.updated_at(), Some(at(50)));
    assert_eq!(changed.created_at(), Some(at(2)));
    let stored = store.get(ResourceKind::Objective, 1).unwrap();
    assert_eq!(stored.title(), "Get strong");
    assert_eq!(stored.updated_at(), Some(at(50)));
    assert_eq!(stored.parent_id(), Some(1));
}

#[test]
fn update_without_a_title_keeps_the_title() {
    let mut store = seeded();
    let task = store.create(ResourceKind::Task, "a".to_string(), Some(1), at(1)).unwrap();
    let changed = store.update(ResourceKind::Task, task, status(Status::Completed), at(9)).unwrap();
    assert_eq!(changed.title(), "a");
    assert_eq!(changed.status(), Some(Status::Completed));
    assert_eq!(changed.updated_at(), Some(at(9)));
}

#[test]
fn update_sets_the_status_of_leaves_only() {
    let mut store = seeded();
    let initiative =
        store.create(ResourceKind::Initiative, "i".to_string(), Some(1), at(1)).unwrap();
    let both = Patch { title: Some("n".to_string()), status: Some(Status::Completed) };
    let changed = store.update(ResourceKind::Initiative, initiative, both, at(2)).unwrap();
    assert_eq!(changed.status(), Some(Status::Completed));
    let both = Patch { title: Some("n".to_string()), status: Some(Status::Completed) };
    let changed = store.update(ResourceKind::Project, 1, both, at(2)).unwrap();
    assert_eq!(changed.title(), "n");
    assert_eq!(changed.status(), Some(Status::NotStarted));
    let both = Patch { title: Some("n".to_string()), status: Some(Status::Completed) };
    let changed = store.update(ResourceKind::Theme, 1, both, at(2)).unwrap();
    assert_eq!(changed.title(), "n");
    assert_eq!(changed.status(), Some(Status::NotStarted));
}

#[test]
fn update_of_a_measurement_changes_what_it_recorded() {
    let mut store = seeded();
    let id = store.create(ResourceKind::Measurement, "95 kg".to_string(), Some(1), at(1)).unwrap();
    store.update(ResourceKind::Measurement, id, title("100 kg"), at(2)).unwrap();
    match store.get(ResourceKind::Measurement, id).unwrap() {
        Entity::Measurement(m) => {
            assert_eq!(m.measurement, "100 kg");
            assert_eq!(m.keyresult_id, 1);
            assert_eq!(m.updated_at, Some(at(2)));
        }
        other => panic!("not a measurement: {:?}", other),
    }
}

#[test]
fn update_of_a_missing_record_fails_and_changes_nothing() {
    let mut store = seeded();
    assert_eq!(
        store.update(ResourceKind::Task, 3, title("x"), at(1)).err(),
        Some(CustomError::TaskNotFound)
    );
    assert_eq!(
        store.update(ResourceKind::Theme, 3, title("x"), at(1)).err(),
        Some(CustomError::ThemeNotFound)
    );
    assert_eq!(store.get(ResourceKind::Theme, 1).unwrap().title(), "Physique");
    assert_eq!(store.tasks().all().len(), 0);
}

#[test]
fn reads_do_not_touch_the_times() {
    let store = seeded();
    let before = store.get(ResourceKind::Objective, 1).unwrap();
    let _ = store.list_children(1, ResourceKind::Objective);
    let after = store.get(ResourceKind::Objective, 1).unwrap();
    assert_eq!(before.created_at(), after.created_at());
    assert_eq!(after.updated_at(), None);
}

#[test]
fn what_each_kind_carries() {
    assert_eq!(ResourceKind::Theme.parent(), None);
    assert_eq!(ResourceKind::Objective.parent(), Some(ResourceKind::Theme));
    assert_eq!(ResourceKind::KeyResult.parent(), Some(ResourceKind::Objective));
    assert_eq!(ResourceKind::Initiative.parent(), Some(ResourceKind::Objective));
    assert_eq!(ResourceKind::Project.parent(), Some(ResourceKind::Objective));
    assert_eq!(ResourceKind::Task.parent(), Some(ResourceKind::Project));
    assert_eq!(ResourceKind::Measurement.parent(), Some(ResourceKind::KeyResult));
    assert!(ResourceKind::Task.status_is_settable());
    assert!(ResourceKind::Initiative.status_is_settable());
    assert!(!ResourceKind::Project.status_is_settable());
    assert!(ResourceKind::Project.status_is_derived());
    assert!(ResourceKind::Theme.status_is_derived());
    assert!(!ResourceKind::Task.status_is_derived());
    assert!(!ResourceKind::Objective.has_status());
    assert!(!ResourceKind::Theme.has_timestamps());
    assert!(ResourceKind::Measurement.has_timestamps());
}

#[test]
fn status_labels() {
    assert_eq!(Status::NotStarted.label(), "Not Started");
    assert_eq!(Status::InProgress.label(), "In Progress");
    assert_eq!(Status::Completed.label(), "Completed");
}
