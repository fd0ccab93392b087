//! Work that is left to be committed.

use agira::commands::report::ProjectFiles;
use agira::commands::todo::{
    dirty_commit_target, run_todo, run_todo_at, GitSeen, TodoError, DEPRECATION_WARNING,
};
use agira::engine::config::{Config, ConfigRead, PhaseDef, DEFAULT_WORKFLOW_NAME};
use agira::engine::global_config::GlobalConfig;
use agira::engine::hooks::HookConfig;
use agira::engine::project::Project;
use agira::engine::tasks::{HistoryEntry, Task, TaskStore, TaskWire, TasksRead};
use agira::string_map::StringMap;
use agira::time::Instant;

fn test_config() -> Config {
    Config::new_single_workflow(
        "test",
        vec![
            ("implementing".to_owned(), PhaseDef::default()),
            ("reviewing".to_owned(), PhaseDef::default()),
        ],
        3,
    )
}

fn task_with_history(id: &str, state: &str, timestamp: &str) -> Task {
    Task {
        id: id.to_owned(),
        title: format!("{id} title"),
        description: "description".to_owned(),
        state: state.to_owned(),
        blocked_at_phase: None,
        blocked_reason: None,
        clarifications: Vec::new(),
        dependencies: Vec::new(),
        retry_count: 0,
        max_retries: 3,
        phases: StringMap::new(),
        history: vec![HistoryEntry {
            from: None,
            to: state.to_owned(),
            timestamp: timestamp.to_owned(),
            reason: "test".to_owned(),
        }],
        created_at: "2026-06-10T00:00:00Z".to_owned(),
        workflow: DEFAULT_WORKFLOW_NAME.to_owned(),
        locked_at: None,
        acceptance_criteria: None,
    }
}

#[test]
fn dirty_commit_target_prefers_latest_reviewing_task_over_done_task() {
    let config = test_config();
    let tasks = vec![
        task_with_history("task-older-done", "done", "2026-06-10T01:00:00Z"),
        task_with_history("task-newer-reviewing", "reviewing", "2026-06-10T02:00:00Z"),
    ];

    let target = dirty_commit_target(&tasks, &config).expect("select task");

    assert_eq!(target.id, "task-newer-reviewing");
}

#[test]
fn dirty_commit_target_still_selects_done_task_when_it_is_latest() {
    let config = test_config();
    let tasks = vec![
        task_with_history("task-older-reviewing", "reviewing", "2026-06-10T01:00:00Z"),
        task_with_history("task-newer-done", "done", "2026-06-10T02:00:00Z"),
    ];

    let target = dirty_commit_target(&tasks, &config).expect("select task");

    assert_eq!(target.id, "task-newer-done");
}

#[test]
fn dirty_commit_target_returns_none_for_pending_only_or_empty_tasks() {
    let config = test_config();
    let pending_tasks = vec![
        task_with_history("task-pending-1", "pending", "2026-06-10T01:00:00Z"),
        task_with_history("task-pending-2", "pending", "2026-06-10T02:00:00Z"),
    ];

    assert!(dirty_commit_target(&pending_tasks, &config).is_none());
    assert!(dirty_commit_target(&[], &config).is_none());
}

#[test]
fn config_initial_phase_returns_first_default_workflow_phase() {
    let config = test_config();

    assert_eq!(config.initial_phase(), Some("pending"));
}

fn three_phase_config() -> Config {
    Config::new_single_workflow(
        "test",
        vec![
            ("enriching".to_owned(), PhaseDef::default()),
            ("implementing".to_owned(), PhaseDef::default()),
            ("reviewing".to_owned(), PhaseDef::default()),
        ],
        3,
    )
}

fn project() -> Project {
    Project {
        git_root: "/work/test-repo".to_owned(),
        slug: "test-repo".to_owned(),
        state_dir: "/home/.agira/test-repo".to_owned(),
        global_config: GlobalConfig::for_program("agent"),
        global_hooks: HookConfig::default(),
        project_hooks: HookConfig::default(),
    }
}

fn store() -> TaskStore {
    TaskStore::new("/home/.agira/test-repo", TasksRead::Missing, &three_phase_config())
        .expect("open store")
}

fn add_task_in_phase(store: &mut TaskStore, title: &str, phase: &str) -> String {
    store
        .add_task(
            title,
            "desc",
            Vec::new(),
            Some(phase),
            DEFAULT_WORKFLOW_NAME.to_owned(),
        )
        .expect("add task")
        .id
}

fn files(store: &TaskStore) -> ProjectFiles {
    ProjectFiles {
        config: ConfigRead::Parsed {
            contents: "\"max_retries\"".to_owned(),
            config: three_phase_config(),
        },
        tasks: TasksRead::Parsed {
            tasks: store
                .all_tasks()
                .iter()
                .map(|task| TaskWire {
                    task: task.clone(),
                    workflow: Some(task.workflow.clone()),
                    has_state_machine: false,
                })
                .collect(),
        },
    }
}

fn clean() -> GitSeen {
    GitSeen { dirty: false, recent_commits: None }
}

#[test]
fn cas_mismatch_returns_already_advanced_past_error() {
    let mut store = store();
    let task_id = add_task_in_phase(&mut store, "cas task", "implementing");

    let (report, result) = run_todo(
        &project(),
        &files(&store),
        &clean(),
        Some("my artifact"),
        Some(&task_id),
        Some("enriching"),
    );

    match result {
        Err(TodoError::AlreadyAdvancedPast { id, phase }) => {
            assert_eq!(id, task_id);
            assert_eq!(phase, "enriching");
        }
        other => panic!("expected AlreadyAdvancedPast, got: {other:?}"),
    }

    assert!(report.tasks.is_none(), "state must not change on CAS mismatch");
}

#[test]
fn targeting_blocked_task_returns_not_advanceable_error() {
    let mut store = store();
    let task_id = add_task_in_phase(&mut store, "blocked task", "implementing");

    store
        .block_task(&task_id, "needs input")
        .expect("block task");

    let (report, result) = run_todo(
        &project(),
        &files(&store),
        &clean(),
        Some("my artifact"),
        Some(&task_id),
        None,
    );

    match result {
        Err(TodoError::NotAdvanceable { id, state }) => {
            assert_eq!(id, task_id);
            assert_eq!(state, "blocked");
        }
        other => panic!("expected NotAdvanceable, got: {other:?}"),
    }

    assert!(report.tasks.is_none());
}

#[test]
fn targeting_failed_task_returns_not_advanceable_error() {
    let mut store = store();
    let task_id = add_task_in_phase(&mut store, "failed task", "implementing");

    store.fail_task(&task_id, "whoops").expect("fail task");

    let (_, result) = run_todo(
        &project(),
        &files(&store),
        &clean(),
        Some("my artifact"),
        Some(&task_id),
        None,
    );

    match result {
        Err(TodoError::NotAdvanceable { id, state }) => {
            assert_eq!(id, task_id);
            assert_eq!(state, "failed");
        }
        other => panic!("expected NotAdvanceable, got: {other:?}"),
    }
}

#[test]
fn targeting_terminal_task_returns_not_advanceable_error() {
    let mut store = store();
    let task_id = add_task_in_phase(&mut store, "terminal task", "done");

    let (_, result) = run_todo(
        &project(),
        &files(&store),
        &clean(),
        Some("my artifact"),
        Some(&task_id),
        None,
    );

    match result {
        Err(TodoError::NotAdvanceable { id, state }) => {
            assert_eq!(id, task_id);
            assert_eq!(state, "done");
        }
        other => panic!("expected NotAdvanceable, got: {other:?}"),
    }
}

#[test]
fn unknown_task_id_returns_task_not_found_error() {
    let (_, result) = run_todo(
        &project(),
        &files(&store()),
        &clean(),
        Some("my artifact"),
        Some("task-999"),
        None,
    );

    match result {
        Err(TodoError::TaskNotFound { id }) => {
            assert_eq!(id, "task-999");
        }
        other => panic!("expected TaskNotFound, got: {other:?}"),
    }
}

#[test]
fn legacy_path_without_task_id_advances_and_returns_ok() {
    let mut store = store();
    let task_id = add_task_in_phase(&mut store, "legacy task", "enriching");

    let (report, result) = run_todo(
        &project(),
        &files(&store),
        &clean(),
        Some("legacy artifact"),
        None,
        None,
    );
    assert!(
        result.is_ok(),
        "legacy path must return Ok; got: {result:?}"
    );
    assert!(report.warnings.iter().any(|warning| warning == DEPRECATION_WARNING));

    let tasks = report.tasks.expect("what is saved");
    let task = tasks.iter().find(|task| task.id == task_id).expect("task exists");
    assert_eq!(
        task.state, "implementing",
        "legacy path must advance the task"
    );
}

#[test]
fn a_task_is_advanced_from_where_it_was_seen() {
    let mut store = store();
    let task_id = add_task_in_phase(&mut store, "task", "enriching");
    let now = Instant::parse("2026-06-11T12:00:00Z").unwrap();

    let (report, result) = run_todo_at(
        &project(),
        &files(&store),
        &clean(),
        Some("  what was done "),
        Some(&task_id),
        Some("enriching"),
        now,
    );

    assert_eq!(result, Ok(()));
    let tasks = report.tasks.expect("what is saved");
    assert_eq!(tasks[0].state, "implementing");
    let phase = tasks[0].phases.get("enriching").unwrap();
    assert_eq!(phase.completed_at, "2026-06-11T12:00:00+00:00");
    assert!(report.warnings.is_empty());

    assert_eq!(
        run_todo_at(
            &project(),
            &files(&store),
            &clean(),
            Some(" "),
            Some(&task_id),
            None,
            now
        )
        .1,
        Err(TodoError::EmptyArtifact)
    );
}
