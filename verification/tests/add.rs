//! Tasks that are added, and what follows from that.

use agira::commands::add::{
    ensure_warning, has_numbers_left, inside_runner, run_add_at, run_add_side_effects, runner_hint,
    AddError, AddReport, NO_RUNNER_HINT,
};
use agira::commands::report::ProjectFiles;
use agira::engine::config::{Config, ConfigRead, PhaseDef};
use agira::engine::file_lock::FileLockError;
use agira::engine::global_config::GlobalConfig;
use agira::engine::hooks::{HookConfig, HookEntry};
use agira::engine::project::Project;
use agira::engine::tasks::{Task, TaskStore, TaskWire, TasksRead};
use agira::time::Instant;

fn test_config() -> Config {
    Config::new_single_workflow(
        "rust",
        vec![(
            "implementing".to_owned(),
            PhaseDef {
                model: Some("dispatch exec -a codex".to_owned()),
                duty: Some("write tests first".to_owned()),
                gate: None,
            },
        )],
        3,
    )
}

fn make_project(auto_start: bool, runner_type: &str) -> Project {
    let mut global_config = GlobalConfig::for_program("agent");
    global_config.runner.auto_start = auto_start;
    global_config.runner.runner_type = runner_type.to_owned();
    Project {
        git_root: "/tmp/test-repo".to_owned(),
        slug: "test-repo".to_owned(),
        state_dir: "/home/.agira/test-repo".to_owned(),
        global_config,
        global_hooks: HookConfig::default(),
        project_hooks: HookConfig::default(),
    }
}

fn empty_store(project: &Project) -> TaskStore {
    TaskStore::new(&project.state_dir, TasksRead::Missing, &test_config()).expect("task store")
}

fn add_task_flow(
    project: &Project,
    store: &mut TaskStore,
    title: &str,
    auto_start: bool,
    inside: bool,
    runner_type: &str,
) -> AddReport {
    let task = store
        .add_task(title, "", vec![], None, test_config().default_workflow.clone())
        .expect("add task");
    run_add_side_effects(project, store, &task, auto_start, inside, runner_type)
}

#[test]
fn auto_start_false_without_live_runner_prints_hint_to_stderr() {
    let project = make_project(false, "agent-tmux");
    let mut store = empty_store(&project);

    let report =
        add_task_flow(&project, &mut store, "task needing runner hint", false, false, "agent-tmux");

    assert_eq!(runner_hint(report.hint, Some(false)), Some(NO_RUNNER_HINT.to_owned()));
}

#[test]
fn auto_start_false_with_live_runner_suppresses_hint() {
    let project = make_project(false, "agent-tmux");
    let mut store = empty_store(&project);

    let report =
        add_task_flow(&project, &mut store, "task with live runner", false, false, "agent-tmux");

    assert_eq!(runner_hint(report.hint, Some(true)), None);
}

#[test]
fn auto_start_true_suppresses_no_runner_hint() {
    let project = make_project(true, "agent-tmux");
    let mut store = empty_store(&project);

    let report =
        add_task_flow(&project, &mut store, "task with auto start", true, false, "agent-tmux");

    assert_eq!(runner_hint(report.hint, Some(false)), None);
    assert!(!report.hint);
}

#[test]
fn inside_runner_suppresses_no_runner_hint() {
    let project = make_project(false, "agent-tmux");
    let mut store = empty_store(&project);

    let report = add_task_flow(&project, &mut store, "task from runner", false, true, "agent-tmux");

    assert_eq!(runner_hint(report.hint, Some(false)), None);
    assert!(!report.hint);
}

#[test]
fn no_runner_hint_liveness_failure_is_non_fatal() {
    let project = make_project(false, "agent-tmux");
    let mut store = empty_store(&project);

    let report = add_task_flow(
        &project,
        &mut store,
        "task despite liveness failure",
        false,
        false,
        "agent-tmux",
    );

    assert_eq!(runner_hint(report.hint, None), None);
    assert_eq!(store.all_tasks().len(), 1);
}

#[test]
fn auto_start_false_does_not_call_ensure_runner() {
    let project = make_project(false, "agent-tmux");
    let mut store = empty_store(&project);

    let report = add_task_flow(&project, &mut store, "my task", false, false, "agent-tmux");

    assert!(
        report.ensure_runner.is_none(),
        "ensure_runner must not be called when auto_start=false"
    );
}

#[test]
fn inside_runner_auto_start_true_does_not_call_ensure_runner() {
    let project = make_project(true, "agent-tmux");
    let mut store = empty_store(&project);

    let report =
        add_task_flow(&project, &mut store, "task from runner pane", true, true, "agent-tmux");

    assert!(
        report.ensure_runner.is_none(),
        "ensure_runner must not be called from inside a runner pane"
    );
    let tasks = store.all_tasks();
    assert_eq!(tasks.len(), 1);
    assert_eq!(tasks[0].title, "task from runner pane");
}

#[test]
fn outside_runner_auto_start_true_calls_ensure_runner() {
    let project = make_project(true, "agent-tmux");
    let mut store = empty_store(&project);

    let report =
        add_task_flow(&project, &mut store, "task outside runner pane", true, false, "agent-tmux");

    assert!(
        report.ensure_runner.is_some(),
        "ensure_runner must be called when auto_start=true outside a runner pane"
    );
}

#[test]
fn inside_runner_auto_start_false_does_not_call_ensure_runner() {
    let project = make_project(false, "agent-tmux");
    let mut store = empty_store(&project);

    let report = add_task_flow(
        &project,
        &mut store,
        "task inside runner without autostart",
        false,
        true,
        "agent-tmux",
    );

    assert!(
        report.ensure_runner.is_none(),
        "ensure_runner must not be called when auto_start=false inside a runner pane"
    );
}

#[test]
fn auto_start_true_calls_ensure_runner_before_hooks() {
    let project = make_project(true, "agent-tmux");
    let mut store = empty_store(&project);

    let report =
        add_task_flow(&project, &mut store, "task for ordering test", true, false, "agent-tmux");

    assert_eq!(
        report.ensure_runner.as_deref(),
        Some("agent-tmux"),
        "ensure_runner must be called when auto_start=true"
    );
}

#[test]
fn auto_start_ensure_runner_failure_is_non_fatal() {
    let project = make_project(true, "agent-tmux");
    let mut store = empty_store(&project);

    let report = add_task_flow(
        &project,
        &mut store,
        "task despite runner failure",
        true,
        false,
        "agent-tmux",
    );

    assert_eq!(
        ensure_warning("tmux not available"),
        "warning: ensure-runner failed: tmux not available"
    );
    assert_eq!(report.report.output, vec!["added task-001: task despite runner failure"]);
    let tasks = store.all_tasks();
    assert_eq!(tasks.len(), 1);
    assert_eq!(tasks[0].title, "task despite runner failure");
}

#[test]
fn ensure_runner_failure_does_not_abort_hook_dispatch() {
    let mut project = make_project(true, "agent-tmux");
    project.project_hooks.hooks.push(HookEntry {
        on: "task_added".to_owned(),
        run: "notify".to_owned(),
    });
    let mut store = empty_store(&project);

    let report = add_task_flow(&project, &mut store, "hook fire test", true, false, "agent-tmux");

    assert!(report.ensure_runner.is_some());
    assert_eq!(report.report.hooks.len(), 1);
    assert_eq!(report.report.hooks[0].event, "task_added");
    assert_eq!(report.report.hooks[0].hooks[0].run, "notify");
    assert_eq!(report.report.hooks[0].context.to_phase, "pending");
}

#[test]
fn ensure_runner_passes_configured_runner_type() {
    let project = make_project(true, "custom-backend");
    let mut store = empty_store(&project);

    let report =
        add_task_flow(&project, &mut store, "type check task", true, false, "custom-backend");

    assert_eq!(report.ensure_runner.as_deref(), Some("custom-backend"));
}

#[test]
fn ensure_runner_called_for_each_task_add_idempotency_is_internal() {
    let project = make_project(true, "agent-tmux");
    let mut store = empty_store(&project);

    let mut call_count = 0u32;
    for title in ["first task", "second task"] {
        let report = add_task_flow(&project, &mut store, title, true, false, "agent-tmux");
        if report.ensure_runner.is_some() {
            call_count += 1;
        }
    }

    assert_eq!(call_count, 2, "ensure_runner called once per task add");
    assert_eq!(store.all_tasks().len(), 2);
}

fn files(tasks: &[Task]) -> ProjectFiles {
    ProjectFiles {
        config: ConfigRead::Parsed {
            contents: "\"max_retries\"".to_owned(),
            config: test_config(),
        },
        tasks: TasksRead::Parsed {
            tasks: tasks
                .iter()
                .map(|task| TaskWire {
                    task: task.clone(),
                    workflow: Some(task.workflow.clone()),
                    has_state_machine: false,
                })
                .collect(),
        },
    }
}

#[test]
fn a_task_is_added_to_the_rest() {
    let project = make_project(false, "agent-tmux");
    let now = Instant::parse("2026-06-11T12:00:00Z").unwrap();
    let none: Vec<String> = vec![];
    assert!(has_numbers_left(&project, &files(&[]), 1));
    let (report, result) = run_add_at(
        &project, &files(&[]), None, "first", Some("text"), &none, None, None, None, now,
    );
    assert_eq!(result, Ok(()));
    assert_eq!(report.report.output, vec!["added task-001: first"]);
    let tasks = report.report.tasks.unwrap();
    assert_eq!(tasks.len(), 1);
    assert_eq!(tasks[0].created_at, "2026-06-11T12:00:00+00:00");
    assert_eq!(tasks[0].description, "text");
    assert!(report.hint);

    let (_, twice) =
        run_add_at(&project, &files(&tasks), None, "first", None, &none, None, None, None, now);
    assert_eq!(
        twice,
        Err(AddError::DuplicateTitle {
            id: "task-001".to_owned(),
            title: "first".to_owned(),
        })
    );
    let needs = vec!["task-009".to_owned()];
    assert_eq!(
        run_add_at(&project, &files(&tasks), None, "b", None, &needs, None, None, None, now).1,
        Err(AddError::UnknownDependency { id: "task-009".to_owned() })
    );
    assert_eq!(
        run_add_at(&project, &files(&[]), None, "b", None, &none, Some("x"), None, None, now).1,
        Err(AddError::UnknownPhase { phase: "x".to_owned() })
    );
    assert_eq!(
        run_add_at(&project, &files(&[]), None, "b", None, &none, None, Some("w"), None, now).1,
        Err(AddError::UnknownWorkflow {
            name: "w".to_owned(),
            available: "default".to_owned(),
        })
    );
    let busy = FileLockError::Acquire { path: "/l".to_owned(), message: "m".to_owned() };
    assert_eq!(
        run_add_at(&project, &files(&[]), Some(busy.clone()), "b", None, &none, None, None, None, now)
            .1,
        Err(AddError::FileLockError(busy))
    );
    let lost = ProjectFiles { config: ConfigRead::Missing, tasks: TasksRead::Missing };
    assert!(matches!(
        run_add_at(&project, &lost, None, "b", None, &none, None, None, None, now).1,
        Err(AddError::ConfigNotFound { .. })
    ));
}

#[test]
fn a_pane_of_a_runner_is_known_by_its_variable() {
    assert!(!inside_runner(None));
    assert!(!inside_runner(Some("")));
    assert!(inside_runner(Some("runner-1")));
}
