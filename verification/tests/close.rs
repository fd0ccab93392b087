//! Closing what has failed.

use agira::commands::close::{close_task_flow, run_close_at, validate_reason, CloseError};
use agira::commands::report::ProjectFiles;
use agira::engine::config::{Config, ConfigRead, PhaseDef};
use agira::engine::global_config::GlobalConfig;
use agira::engine::hooks::HookConfig;
use agira::engine::project::Project;
use agira::engine::tasks::{TaskStore, TasksRead};
use agira::time::Instant;

const STAMP: &str = "2026-06-11T12:00:00+00:00";

fn make_project_store() -> (Project, TaskStore) {
    let config = Config::new_single_workflow(
        "test",
        vec![
            ("enriching".to_owned(), PhaseDef::default()),
            ("implementing".to_owned(), PhaseDef::default()),
            ("reviewing".to_owned(), PhaseDef::default()),
        ],
        1,
    );
    let project = Project {
        git_root: "/work/test".to_owned(),
        slug: "test".to_owned(),
        state_dir: "/work/test/.agira".to_owned(),
        global_config: GlobalConfig::for_program("agent"),
        global_hooks: HookConfig::default(),
        project_hooks: HookConfig::default(),
    };
    let store = TaskStore::new("/work/test/.agira", TasksRead::Missing, &config).expect("store");
    (project, store)
}

#[test]
fn close_failed_task_transitions_to_done() {
    let (project, mut store) = make_project_store();
    let task = store
        .add_task(
            "close me",
            "description",
            Vec::new(),
            Some("reviewing"),
            "default".to_owned(),
        )
        .expect("add task");

    store
        .fail_task(&task.id, "some failure")
        .expect("fail task");

    let (report, result) = close_task_flow(
        &project,
        &mut store,
        "done",
        &task.id,
        "manual verification passed",
        STAMP,
    );
    result.expect("close task flow");

    let task = store.get_task(&task.id).expect("get task");
    assert_eq!(task.state, "done");
    assert_eq!(report.tasks.expect("what is saved"), store.all_tasks());
}

#[test]
fn close_records_history_entry() {
    let (project, mut store) = make_project_store();
    let task = store
        .add_task(
            "history check",
            "description",
            Vec::new(),
            Some("reviewing"),
            "default".to_owned(),
        )
        .expect("add task");

    store
        .fail_task(&task.id, "some failure")
        .expect("fail task");

    close_task_flow(&project, &mut store, "done", &task.id, "manually verified", STAMP)
        .1
        .expect("close task flow");

    let task = store.get_task(&task.id).expect("get task");
    let last_entry = task.history.last().expect("history entry");
    assert_eq!(last_entry.from.as_deref(), Some("failed"));
    assert_eq!(last_entry.to, "done");
    assert_eq!(last_entry.reason, "closed: manually verified");
    assert_eq!(last_entry.timestamp, STAMP);
}

#[test]
fn close_pending_task_returns_not_failed() {
    let (project, mut store) = make_project_store();
    let task = store
        .add_task("pending task", "", Vec::new(), None, "default".to_owned())
        .expect("add task");

    let (_, result) = close_task_flow(&project, &mut store, "done", &task.id, "reason", STAMP);
    assert!(
        matches!(result, Err(CloseError::NotFailed { .. })),
        "expected NotFailed, got: {result:?}"
    );
}

#[test]
fn close_active_phase_task_returns_not_failed() {
    let (project, mut store) = make_project_store();
    let task = store
        .add_task(
            "in progress task",
            "",
            Vec::new(),
            Some("implementing"),
            "default".to_owned(),
        )
        .expect("add task");

    let (_, result) = close_task_flow(&project, &mut store, "done", &task.id, "reason", STAMP);
    assert!(
        matches!(result, Err(CloseError::NotFailed { .. })),
        "expected NotFailed, got: {result:?}"
    );
}

#[test]
fn close_done_task_returns_not_failed() {
    let (project, mut store) = make_project_store();
    let task = store
        .add_task(
            "done task",
            "",
            Vec::new(),
            Some("done"),
            "default".to_owned(),
        )
        .expect("add task");

    let (_, result) = close_task_flow(&project, &mut store, "done", &task.id, "reason", STAMP);
    assert!(
        matches!(result, Err(CloseError::NotFailed { .. })),
        "expected NotFailed, got: {result:?}"
    );
}

#[test]
fn close_blocked_task_returns_not_failed() {
    let (project, mut store) = make_project_store();
    let task = store
        .add_task(
            "blocked task",
            "",
            Vec::new(),
            Some("reviewing"),
            "default".to_owned(),
        )
        .expect("add task");

    store
        .block_task(&task.id, "blocked reason")
        .expect("block task");

    let (_, result) = close_task_flow(&project, &mut store, "done", &task.id, "reason", STAMP);
    assert!(
        matches!(result, Err(CloseError::NotFailed { .. })),
        "expected NotFailed, got: {result:?}"
    );
}

#[test]
fn close_unknown_task_returns_not_found() {
    let (project, mut store) = make_project_store();

    let (_, result) = close_task_flow(&project, &mut store, "done", "task-999", "reason", STAMP);
    assert!(
        matches!(result, Err(CloseError::TaskNotFound { .. })),
        "expected TaskNotFound, got: {result:?}"
    );
}

#[test]
fn validate_reason_none_returns_missing_reason() {
    let result = validate_reason(None);
    assert!(matches!(result, Err(CloseError::MissingReason)));
}

#[test]
fn validate_reason_empty_returns_empty_reason() {
    let result = validate_reason(Some("   "));
    assert!(matches!(result, Err(CloseError::EmptyReason)));
}

#[test]
fn validate_reason_valid_returns_str() {
    let result = validate_reason(Some("manual verification"));
    assert_eq!(result.unwrap(), "manual verification");
}

#[test]
fn nothing_is_closed_where_there_is_no_config() {
    let (project, _store) = make_project_store();
    let files = ProjectFiles { config: ConfigRead::Missing, tasks: TasksRead::Missing };
    let now = Instant::parse("2026-06-11T12:00:00Z").unwrap();

    let (report, result) = run_close_at(&project, &files, "task-001", Some("why"), now);

    assert_eq!(
        result.unwrap_err(),
        CloseError::ConfigNotFound { path: "/work/test/.agira/config.json".to_owned() }
    );
    assert!(report.tasks.is_none());

    let unreadable = ProjectFiles {
        config: ConfigRead::Unreadable { message: "denied".to_owned() },
        tasks: TasksRead::Missing,
    };
    assert!(matches!(
        run_close_at(&project, &unreadable, "task-001", Some("why"), now).1,
        Err(CloseError::ConfigRead { .. })
    ));

    let malformed = ProjectFiles {
        config: ConfigRead::Malformed { message: "eof".to_owned() },
        tasks: TasksRead::Missing,
    };
    assert!(matches!(
        run_close_at(&project, &malformed, "task-001", Some("why"), now).1,
        Err(CloseError::ConfigLoad { .. })
    ));
}
