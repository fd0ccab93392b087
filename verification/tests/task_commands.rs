//! Tasks that are blocked, locked, changed and taken away.

use agira::commands::block::{block_task_flow, run_block_at, BlockError};
use agira::commands::lock::{run_lock_at, LockError};
use agira::commands::remove::{remove_task_flow, run_remove, RemoveError};
use agira::commands::report::ProjectFiles;
use agira::commands::unblock::{run_unblock_at, unblock_task_flow, UnblockError};
use agira::commands::unlock::{run_unlock, UnlockError};
use agira::commands::update::{run_update, UpdateError, UpdateInput};
use agira::engine::config::{Config, ConfigRead, PhaseDef};
use agira::engine::global_config::GlobalConfig;
use agira::engine::hooks::{HookConfig, HookEntry};
use agira::engine::project::Project;
use agira::engine::tasks::{Task, TaskStore, TaskWire, TasksRead};
use agira::time::Instant;

const STAMP: &str = "2026-06-11T12:00:00+00:00";

fn now() -> Instant {
    Instant::parse("2026-06-11T12:00:00Z").unwrap()
}

fn config() -> Config {
    Config::new_single_workflow(
        "test",
        vec![("implementing".to_owned(), PhaseDef::default())],
        3,
    )
}

fn project() -> Project {
    Project {
        git_root: "/work/test".to_owned(),
        slug: "test".to_owned(),
        state_dir: "/state".to_owned(),
        global_config: GlobalConfig::for_program("agent"),
        global_hooks: HookConfig::default(),
        project_hooks: HookConfig::default(),
    }
}

fn store(phases: &[&str]) -> TaskStore {
    let mut store = TaskStore::new("/state", TasksRead::Missing, &config()).unwrap();
    for phase in phases {
        store
            .add_task("title", "", vec![], Some(phase), "default".to_owned())
            .unwrap();
    }
    store
}

fn files(tasks: &[Task]) -> ProjectFiles {
    ProjectFiles {
        config: ConfigRead::Parsed {
            contents: "\"max_retries\"".to_owned(),
            config: config(),
        },
        tasks: TasksRead::Parsed {
            tasks: tasks
                .iter()
                .map(|task| TaskWire {
                    task: task.clone(),
                    workflow: Some(task.workflow.clone()),
                    has_state_machine: false,
                })
                .collect(),
        },
    }
}

fn no_config() -> ProjectFiles {
    ProjectFiles { config: ConfigRead::Missing, tasks: TasksRead::Missing }
}

#[test]
fn a_blocked_task_is_unblocked_where_it_was() {
    let mut project = project();
    project.global_hooks.hooks.push(HookEntry {
        on: "blocked".to_owned(),
        run: "notify".to_owned(),
    });
    let mut store = store(&["implementing"]);

    let (report, result) =
        block_task_flow(&project, &mut store, "done", "task-001", "which one?", STAMP);
    assert_eq!(result, Ok(()));
    assert_eq!(report.output, vec!["task-001 blocked: which one?"]);
    assert_eq!(report.hooks[0].event, "blocked");
    assert_eq!(report.hooks[0].hooks[0].run, "notify");
    assert_eq!(store.get_task("task-001").unwrap().state, "blocked");

    let (report, result) = unblock_task_flow(&mut store, "task-001", STAMP);
    assert_eq!(result, Ok(()));
    assert_eq!(report.output, vec!["task-001 unblocked: implementing"]);
    assert_eq!(store.get_task("task-001").unwrap().state, "implementing");
    assert_eq!(report.tasks.unwrap(), store.all_tasks());
}

#[test]
fn what_cannot_be_blocked_is_refused() {
    let project = project();
    let state = files(store(&["done"]).all_tasks());
    let run = |files: &ProjectFiles, id: &str, reason: Option<&str>| {
        run_block_at(&project, files, id, reason, now()).1
    };
    assert_eq!(run(&state, "task-001", None), Err(BlockError::MissingReason));
    assert_eq!(run(&state, "task-001", Some("")), Err(BlockError::EmptyReason));
    assert_eq!(
        run(&state, "task-009", Some("x")),
        Err(BlockError::TaskNotFound { id: "task-009".to_owned() })
    );
    assert_eq!(
        run(&state, "task-001", Some("x")),
        Err(BlockError::AlreadyTerminal { id: "task-001".to_owned(), state: "done".to_owned() })
    );
    assert!(matches!(
        run(&no_config(), "task-001", Some("x")),
        Err(BlockError::ConfigNotFound { .. })
    ));
    assert_eq!(
        run_unblock_at(&project, &state, "task-001", now()).1,
        Err(UnblockError::NotBlocked { id: "task-001".to_owned() })
    );
    assert_eq!(
        run_unblock_at(&project, &state, "task-009", now()).1,
        Err(UnblockError::TaskNotFound { id: "task-009".to_owned() })
    );
}

#[test]
fn a_locked_task_is_unlocked() {
    let project = project();
    let (report, result) =
        run_lock_at(&project, &files(store(&["pending"]).all_tasks()), "task-001", now());
    assert_eq!(result, Ok(()));
    assert_eq!(report.output, vec!["task-001 locked"]);
    let tasks = report.tasks.unwrap();
    assert_eq!(tasks[0].locked_at.as_deref(), Some(STAMP));

    let (report, result) = run_unlock(&project, &files(&tasks), "task-001");
    assert_eq!(result, Ok(()));
    assert_eq!(report.output, vec!["task-001 unlocked"]);
    assert_eq!(report.tasks.unwrap()[0].locked_at, None);

    assert_eq!(
        run_lock_at(&project, &files(&[]), "task-001", now()).1,
        Err(LockError::TaskNotFound { id: "task-001".to_owned() })
    );
    assert_eq!(
        run_unlock(&project, &files(&[]), "task-001").1,
        Err(UnlockError::TaskNotFound { id: "task-001".to_owned() })
    );
}

#[test]
fn only_a_task_that_waits_alone_is_removed() {
    let project = project();
    let mut store = store(&["pending", "implementing"]);
    store
        .add_task("needs", "", vec!["task-001".to_owned()], None, "default".to_owned())
        .unwrap();

    assert_eq!(
        run_remove(&project, &files(store.all_tasks()), "task-001").1,
        Err(RemoveError::HasDependents {
            id: "task-001".to_owned(),
            dependent_id: "task-003".to_owned(),
        })
    );
    assert_eq!(
        run_remove(&project, &files(store.all_tasks()), "task-002").1,
        Err(RemoveError::NotPending {
            id: "task-002".to_owned(),
            state: "implementing".to_owned(),
        })
    );
    assert_eq!(
        run_remove(&project, &files(store.all_tasks()), "task-004").1,
        Err(RemoveError::TaskNotFound { id: "task-004".to_owned() })
    );
    let (report, result) = remove_task_flow(&mut store, "pending", "task-003");
    assert_eq!(result, Ok(()));
    assert_eq!(report.output, vec!["task-003 removed"]);
    assert!(store.get_task("task-003").is_none());
    assert_eq!(store.all_tasks().len(), 2);
}

#[test]
fn a_task_is_changed_where_something_is_given() {
    let project = project();
    let tasks = store(&["implementing", "pending", "done"]);
    let state = files(tasks.all_tasks());
    let nothing = || UpdateInput {
        title: None,
        description: None,
        depends_on: None,
        acceptance_criteria: None,
    };

    let (report, result) = run_update(
        &project,
        &state,
        "task-001",
        UpdateInput {
            title: Some("new".to_owned()),
            depends_on: Some(vec!["task-002".to_owned()]),
            acceptance_criteria: Some("it works".to_owned()),
            ..nothing()
        },
    );
    assert_eq!(result, Ok(()));
    assert_eq!(report.output, vec!["task-001 updated"]);
    let task = &report.tasks.unwrap()[0];
    assert_eq!(task.title, "new");
    assert_eq!(task.description, "");
    assert_eq!(task.dependencies, vec!["task-002"]);
    assert_eq!(task.acceptance_criteria.as_deref(), Some("it works"));

    assert_eq!(
        run_update(&project, &state, "task-001", nothing()).1,
        Err(UpdateError::NoFields)
    );
    let titled = || UpdateInput { title: Some("x".to_owned()), ..nothing() };
    assert_eq!(
        run_update(&project, &state, "task-009", titled()).1,
        Err(UpdateError::TaskNotFound { id: "task-009".to_owned() })
    );
    assert_eq!(
        run_update(&project, &state, "task-003", titled()).1,
        Err(UpdateError::CannotUpdate { id: "task-003".to_owned(), state: "done".to_owned() })
    );
    let lost = UpdateInput { depends_on: Some(vec!["task-009".to_owned()]), ..nothing() };
    assert_eq!(
        run_update(&project, &state, "task-001", lost).1,
        Err(UpdateError::UnknownDependency { id: "task-009".to_owned() })
    );
}
