//! Tasks on their way through a workflow.

use agira::engine::config::{Config, PhaseDef};
use agira::engine::tasks::{
    all_tasks_done, largest_task_number, StoreError, Task, TaskStore, TaskWire, TasksRead,
};

fn config() -> Config {
    Config::new_single_workflow(
        "test",
        vec![
            ("enriching".to_owned(), PhaseDef::default()),
            ("implementing".to_owned(), PhaseDef::default()),
            ("reviewing".to_owned(), PhaseDef::default()),
        ],
        3,
    )
}

fn retry_test_store() -> TaskStore {
    TaskStore::new("/work/.agira", TasksRead::Missing, &config()).expect("create store")
}

fn written(tasks: &[Task]) -> TasksRead {
    TasksRead::Parsed {
        tasks: tasks
            .iter()
            .map(|task| TaskWire {
                task: task.clone(),
                workflow: Some(task.workflow.clone()),
                has_state_machine: false,
            })
            .collect(),
    }
}

#[test]
fn retry_from_reviewing_reenters_at_producing_phase() {
    let mut store = retry_test_store();
    let task = store
        .add_task(
            "retry target",
            "description",
            Vec::new(),
            Some("reviewing"),
            "default".to_owned(),
        )
        .expect("add task");
    store.lock_task(&task.id).expect("lock task");

    assert_eq!(
        store
            .retry_task(&task.id, "needs changes")
            .expect("retry task"),
        (1, 3)
    );

    let task = store.get_task(&task.id).expect("get task");
    assert_eq!(task.state, "implementing");
    assert_eq!(task.retry_count, 1);
    assert_eq!(task.locked_at, None);
    let history = task.history.last().expect("retry history");
    assert_eq!(history.from.as_deref(), Some("reviewing"));
    assert_eq!(history.to, "implementing");
    assert_eq!(history.reason, "retry 1/3: needs changes");
}

#[test]
fn retry_first_attempt_uses_previous_phase() {
    let mut store = retry_test_store();
    let task = store
        .add_task(
            "first retry target",
            "description",
            Vec::new(),
            Some("reviewing"),
            "default".to_owned(),
        )
        .expect("add task");

    store
        .retry_task(&task.id, "wrong output")
        .expect("retry task");

    let task = store.get_task(&task.id).expect("get task");
    assert_eq!(task.state, "implementing");
    assert_eq!(task.retry_count, 1);
    let history = task.history.last().expect("retry history");
    assert_eq!(history.reason, "retry 1/3: wrong output");
}

#[test]
fn retry_second_attempt_escalates_to_first_real_phase() {
    let mut store = retry_test_store();
    let task = store
        .add_task(
            "second retry target",
            "description",
            Vec::new(),
            Some("reviewing"),
            "default".to_owned(),
        )
        .expect("add task");

    store
        .retry_task(&task.id, "first retry")
        .expect("retry task");
    store.next_phase(&task.id).expect("return to reviewing");
    store
        .retry_task(&task.id, "second retry")
        .expect("retry task");

    let task = store.get_task(&task.id).expect("get task");
    assert_eq!(task.state, "enriching");
    assert_eq!(task.retry_count, 2);
    let history = task.history.last().expect("retry history");
    assert_eq!(history.from.as_deref(), Some("reviewing"));
    assert_eq!(history.to, "enriching");
    assert_eq!(history.reason, "retry 2/3: second retry");
}

#[test]
fn retry_from_first_real_phase_clamps_to_itself() {
    let mut store = retry_test_store();
    let task = store
        .add_task(
            "first real phase",
            "description",
            Vec::new(),
            Some("enriching"),
            "default".to_owned(),
        )
        .expect("add task");

    store.retry_task(&task.id, "try again").expect("retry task");

    let task = store.get_task(&task.id).expect("get task");
    assert_eq!(task.state, "enriching");
    assert_eq!(task.retry_count, 1);
    let history = task.history.last().expect("retry history");
    assert_eq!(history.from.as_deref(), Some("enriching"));
    assert_eq!(history.to, "enriching");
    assert_eq!(history.reason, "retry 1/3: try again");
}

#[test]
fn advance_with_artifact_writes_once() {
    let mut store = retry_test_store();

    let task = store
        .add_task(
            "atomic advance",
            "description",
            Vec::new(),
            Some("enriching"),
            "default".to_owned(),
        )
        .expect("add task");

    store.lock_task(&task.id).expect("lock task");
    assert!(
        store.get_task(&task.id).unwrap().locked_at.is_some(),
        "locked_at must be set before advance"
    );

    let completed_at = "2026-06-11T10:00:00Z".to_owned();
    let from_phase = store
        .advance_with_artifact(&task.id, "my artifact", completed_at.clone())
        .expect("advance_with_artifact");

    assert_eq!(from_phase, "enriching");

    let updated = store.get_task(&task.id).expect("task exists");
    let phase_entry = updated
        .phases
        .get("enriching")
        .expect("artifact recorded under enriching");
    assert_eq!(phase_entry.artifact, "my artifact");
    assert_eq!(phase_entry.completed_at, "2026-06-11T10:00:00Z");

    assert_eq!(updated.state, "implementing");

    assert_eq!(updated.locked_at, None, "locked_at must be cleared");

    let last_history = updated.history.last().expect("history entry");
    assert_eq!(last_history.from.as_deref(), Some("enriching"));
    assert_eq!(last_history.to, "implementing");
    assert_eq!(last_history.reason, "advanced to next phase");

    let fresh_store = TaskStore::new("/work/.agira", written(store.all_tasks()), &config())
        .expect("reload store");
    assert!(!fresh_store.migrated());
    let disk_task = fresh_store.get_task(&task.id).expect("task on disk");
    assert_eq!(
        disk_task.state, "implementing",
        "disk state must be advanced"
    );
    assert!(
        disk_task.phases.contains_key("enriching"),
        "disk artifact must be present"
    );
    assert_eq!(disk_task.locked_at, None, "disk locked_at must be None");

    assert_eq!(store.tasks_path(), "/work/.agira/tasks.json");
}

#[test]
fn advance_with_artifact_not_found() {
    let mut store = retry_test_store();
    let result =
        store.advance_with_artifact("task-999", "artifact", "2026-06-11T10:00:00Z".to_owned());
    assert!(
        matches!(result, Err(StoreError::NotFound)),
        "expected NotFound, got: {result:?}"
    );
}

#[test]
fn advance_with_artifact_already_terminal() {
    let mut store = retry_test_store();
    let task = store
        .add_task(
            "terminal",
            "desc",
            Vec::new(),
            Some("done"),
            "default".to_owned(),
        )
        .expect("add task");
    let result =
        store.advance_with_artifact(&task.id, "artifact", "2026-06-11T10:00:00Z".to_owned());
    assert!(
        matches!(result, Err(StoreError::AlreadyTerminal)),
        "expected AlreadyTerminal, got: {result:?}"
    );
}

#[test]
fn advance_with_artifact_dependency_blocked() {
    let config = Config::new_single_workflow(
        "test",
        vec![
            ("enriching".to_owned(), PhaseDef::default()),
            ("implementing".to_owned(), PhaseDef::default()),
        ],
        3,
    );
    let mut store = TaskStore::new("/work/.agira", TasksRead::Missing, &config).expect("store");

    let dep = store
        .add_task(
            "dep",
            "desc",
            Vec::new(),
            Some("enriching"),
            "default".to_owned(),
        )
        .expect("add dep");
    let task = store
        .add_task(
            "dependent",
            "desc",
            vec![dep.id.clone()],
            Some("enriching"),
            "default".to_owned(),
        )
        .expect("add task");

    let result =
        store.advance_with_artifact(&task.id, "artifact", "2026-06-11T10:00:00Z".to_owned());
    assert!(
        matches!(result, Err(StoreError::DependencyBlocked { .. })),
        "expected DependencyBlocked, got: {result:?}"
    );
}

#[test]
fn tasks_are_numbered_past_the_largest() {
    let mut store = retry_test_store();
    for expected in ["task-001", "task-002", "task-003"] {
        let task = store
            .add_task("t", "", Vec::new(), None, "default".to_owned())
            .unwrap();
        assert_eq!(task.id, expected);
        assert_eq!(task.state, "pending");
        assert_eq!(task.history.last().unwrap().reason, "task created");
    }
    store.remove_task("task-002").unwrap();
    assert_eq!(largest_task_number(store.all_tasks()), 3);
    let task = store
        .add_task("t", "", Vec::new(), None, "default".to_owned())
        .unwrap();
    assert_eq!(task.id, "task-004");
}

#[test]
fn a_task_cannot_be_added_to_what_is_not_there() {
    let mut store = retry_test_store();
    assert_eq!(
        store.add_task("t", "", vec!["task-007".to_owned()], None, "default".to_owned()),
        Err(StoreError::DependencyBlocked {
            task_id: "task-001".to_owned(),
            blocking_id: "task-007".to_owned(),
        })
    );
    assert_eq!(
        store.add_task("t", "", Vec::new(), Some("cooking"), "default".to_owned()),
        Err(StoreError::UnknownPhase { phase: "cooking".to_owned() })
    );
    assert_eq!(
        store.add_task("t", "", Vec::new(), None, "other".to_owned()),
        Err(StoreError::UnknownWorkflow { workflow: "other".to_owned() })
    );
    assert!(store.all_tasks().is_empty());
}

#[test]
fn an_unblocked_task_is_where_it_was() {
    let mut store = retry_test_store();
    let id = store
        .add_task("t", "", Vec::new(), Some("implementing"), "default".to_owned())
        .unwrap()
        .id;
    assert_eq!(store.unblock_task(&id), Err(StoreError::NotBlocked));
    store.block_task(&id, "waiting").unwrap();
    assert_eq!(store.block_task(&id, "waiting"), Err(StoreError::AlreadyBlocked));
    let blocked = store.get_task(&id).unwrap();
    assert_eq!(blocked.state, "blocked");
    assert_eq!(blocked.blocked_reason.as_deref(), Some("waiting"));
    store.unblock_task(&id).unwrap();
    let task = store.get_task(&id).unwrap();
    assert_eq!(task.state, "implementing");
    assert_eq!(task.blocked_at_phase, None);
    assert_eq!(task.blocked_reason, None);
    assert_eq!(task.history.last().unwrap().reason, "unblocked");
}

#[test]
fn a_task_at_its_end_is_left_alone() {
    let mut store = retry_test_store();
    let id = store
        .add_task("t", "", Vec::new(), Some("done"), "default".to_owned())
        .unwrap()
        .id;
    assert_eq!(store.next_phase(&id), Err(StoreError::AlreadyTerminal));
    assert_eq!(store.retry_task(&id, "x"), Err(StoreError::AlreadyTerminal));
    assert_eq!(store.block_task(&id, "x"), Err(StoreError::AlreadyTerminal));
    assert_eq!(
        store.update_task(&id, Some("new"), None, None),
        Err(StoreError::CannotUpdateTerminal { id: id.clone(), state: "done".to_owned() })
    );
    assert_eq!(
        store.close_task(&id, "x", "done"),
        Err(StoreError::NotFailed { id: id.clone() })
    );
    assert_eq!(
        store.remove_task(&id),
        Err(StoreError::NotInPendingPhase { id: id.clone() })
    );
    assert_eq!(store.lock_task("task-999"), Err(StoreError::NotFound));
    assert!(all_tasks_done(store.all_tasks()));
}

#[test]
fn a_task_that_others_need_is_not_removed() {
    let mut store = retry_test_store();
    let first = store
        .add_task("a", "", Vec::new(), None, "default".to_owned())
        .unwrap()
        .id;
    let second = store
        .add_task("b", "", vec![first.clone()], None, "default".to_owned())
        .unwrap()
        .id;
    assert_eq!(
        store.remove_task(&first),
        Err(StoreError::DependedOnBy { id: first.clone(), dependent_id: second.clone() })
    );
    store.remove_task(&second).unwrap();
    store.remove_task(&first).unwrap();
    assert!(store.all_tasks().is_empty());
}

#[test]
fn tasks_without_a_workflow_are_given_the_default_one() {
    let mut store = retry_test_store();
    store
        .add_task("a", "", Vec::new(), None, "default".to_owned())
        .unwrap();
    let older = TasksRead::Parsed {
        tasks: vec![TaskWire {
            task: store.all_tasks()[0].clone(),
            workflow: None,
            has_state_machine: true,
        }],
    };
    let read = TaskStore::new("/work/.agira", older, &config()).unwrap();
    assert!(read.migrated());
    assert_eq!(read.all_tasks()[0].workflow, "default");
    assert_eq!(
        TaskStore::new(
            "/s",
            TasksRead::Malformed { message: "eof".to_owned() },
            &config()
        )
        .unwrap_err(),
        StoreError::Deserialize { message: "eof".to_owned() }
    );
    assert_eq!(
        TaskStore::new(
            "/s",
            TasksRead::Unreadable { message: "denied".to_owned() },
            &config()
        )
        .unwrap_err()
        .message(),
        "failed to write or read /s/tasks.json"
    );
}
