//! Tasks that wait for somebody.

use agira::commands::blocked::{run_blocked, BlockedReport};
use agira::commands::report::ProjectFiles;
use agira::commands::status::StatusError;
use agira::engine::config::{Config, ConfigRead, PhaseDef};
use agira::engine::global_config::GlobalConfig;
use agira::engine::hooks::HookConfig;
use agira::engine::project::Project;
use agira::engine::tasks::{HistoryEntry, Task, TaskWire, TasksRead};
use agira::string_map::StringMap;

fn test_config() -> Config {
    Config::new_single_workflow(
        "rust",
        vec![
            ("pending".to_owned(), PhaseDef::default()),
            ("implementing".to_owned(), PhaseDef::default()),
            ("done".to_owned(), PhaseDef::default()),
        ],
        3,
    )
}

fn make_project() -> Project {
    Project {
        git_root: "/tmp/agira-blocked-test".to_owned(),
        slug: "agira-blocked-test".to_owned(),
        state_dir: "/home/.agira/agira-blocked-test".to_owned(),
        global_config: GlobalConfig::for_program("agent"),
        global_hooks: HookConfig::default(),
        project_hooks: HookConfig::default(),
    }
}

fn task(id: &str, title: &str, state: &str) -> Task {
    Task {
        id: id.to_owned(),
        title: title.to_owned(),
        description: "description".to_owned(),
        state: state.to_owned(),
        blocked_at_phase: None,
        blocked_reason: None,
        clarifications: Vec::new(),
        dependencies: Vec::new(),
        retry_count: 0,
        max_retries: 3,
        phases: StringMap::new(),
        history: vec![HistoryEntry {
            from: None,
            to: state.to_owned(),
            timestamp: "2026-06-13T10:00:00Z".to_owned(),
            reason: "task created".to_owned(),
        }],
        created_at: "2026-06-13T10:00:00Z".to_owned(),
        workflow: "default".to_owned(),
        locked_at: None,
        acceptance_criteria: None,
    }
}

fn blocked_task(id: &str, title: &str, phase: &str, reason: &str) -> Task {
    let mut task = task(id, title, "blocked");
    task.blocked_at_phase = Some(phase.to_owned());
    task.blocked_reason = Some(reason.to_owned());
    task
}

fn files(tasks: Vec<Task>) -> ProjectFiles {
    ProjectFiles {
        config: ConfigRead::Parsed {
            contents: "\"max_retries\"".to_owned(),
            config: test_config(),
        },
        tasks: TasksRead::Parsed {
            tasks: tasks
                .into_iter()
                .map(|task| TaskWire {
                    workflow: Some(task.workflow.clone()),
                    task,
                    has_state_machine: false,
                })
                .collect(),
        },
    }
}

fn run(files: &ProjectFiles, json: bool) -> BlockedReport {
    let (report, result) = run_blocked(&make_project(), files, json);
    result.expect("run blocked");
    report
}

fn text(files: &ProjectFiles) -> String {
    let report = run(files, false);
    assert!(report.tasks.is_none());
    report.report.output.iter().map(|line| format!("{line}\n")).collect()
}

#[test]
fn text_lists_blocked_tasks_with_complete_reasons_ordered_by_id() {
    let output = text(&files(vec![
        blocked_task(
            "task-010",
            "later blocked",
            "reviewing",
            "Question one?\nQuestion two needs a longer human decision.",
        ),
        blocked_task("task-002", "first blocked", "implementing", "Pick A or B?"),
    ]));

    assert!(output.contains("task-002"));
    assert!(output.contains("first blocked"));
    assert!(output.contains("implementing"));
    assert!(output.contains("Pick A or B?"));
    assert!(output.contains("task-010"));
    assert!(output.contains("Question one?\n  Question two needs a longer human decision."));
    assert!(output.find("task-002") < output.find("task-010"));
}

#[test]
fn text_excludes_non_blocked_tasks() {
    let output = text(&files(vec![
        task("task-001", "pending task", "pending"),
        blocked_task("task-002", "blocked task", "implementing", "Need input?"),
        task("task-003", "done task", "done"),
        task("task-004", "failed task", "failed"),
    ]));

    assert!(output.contains("task-002"));
    assert!(!output.contains("pending task"));
    assert!(!output.contains("done task"));
    assert!(!output.contains("failed task"));
}

#[test]
fn json_outputs_blocked_tasks_as_full_task_objects() {
    let report = run(
        &files(vec![
            task("task-001", "pending task", "pending"),
            blocked_task("task-002", "blocked task", "implementing", "Need input?"),
        ]),
        true,
    );
    let array = report.tasks.expect("tasks");

    assert_eq!(array.len(), 1);
    assert_eq!(array[0].id, "task-002");
    assert_eq!(array[0].title, "blocked task");
    assert_eq!(array[0].state, "blocked");
    assert_eq!(array[0].blocked_at_phase.as_deref(), Some("implementing"));
    assert_eq!(array[0].blocked_reason.as_deref(), Some("Need input?"));
    assert_eq!(array[0].description, "description");
    assert_eq!(array[0].history.len(), 1);
}

#[test]
fn empty_outputs_clear_text_line_or_empty_json_array() {
    let files = files(vec![task("task-001", "pending task", "pending")]);

    assert_eq!(text(&files), "No blocked tasks.\n");

    assert_eq!(run(&files, true).tasks, Some(vec![]));
}

#[test]
fn missing_tasks_file_is_empty() {
    let mut files = files(vec![]);
    files.tasks = TasksRead::Missing;

    assert_eq!(text(&files), "No blocked tasks.\n");

    assert_eq!(run(&files, true).tasks, Some(vec![]));
}

#[test]
fn nothing_is_listed_without_a_config() {
    let mut files = files(vec![]);
    files.config = ConfigRead::Missing;
    assert!(matches!(
        run_blocked(&make_project(), &files, false).1,
        Err(StatusError::ConfigNotFound { .. })
    ));
}
