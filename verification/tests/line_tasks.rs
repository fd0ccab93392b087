//! Tasks that go along one line of phases.

use agira::engine::tasks::{StoreError, Task, TaskStore, TaskWire, TasksRead};
use agira::linear::config::{
    line_as_workflow, Config, ConfigRead, PhaseConfig, ProjectConfigFile, VerificationConfig,
};
use agira::linear::config_phases::{
    run_config_phases, try_config_phases, DocumentSeen, PhasesChange, PhasesError,
};
use agira::linear::done::{run_done, DoneError};
use agira::linear::fail::{run_fail, start_over, FailError};
use agira::linear::global_config::GlobalConfig;
use agira::linear::project::{LineFiles, Project};
use agira::time::Instant;

const STAMP: &str = "2026-06-11T12:00:00+00:00";

fn config_file() -> ProjectConfigFile {
    ProjectConfigFile {
        stack: "rust".to_owned(),
        phases: None,
        state_machine: Some(vec![
            "enriching".to_owned(),
            "in_progress".to_owned(),
            "done".to_owned(),
        ]),
        models: None,
        verification: VerificationConfig { commands: vec![] },
        acceptance_testing: "cli".to_owned(),
        max_retries: Some(3),
        default_model: Some("sonnet".to_owned()),
        prd_path: None,
    }
}

const DOCUMENT: &str = r#"{
  "stack": "rust",
  "state_machine": ["enriching", "in_progress", "done"],
  "models": {},
  "verification": { "commands": [] },
  "acceptance_testing": "cli",
  "max_retries": 3,
  "default_model": "sonnet",
  "prd_path": null
}"#;

fn test_config() -> Config {
    let phase = |name: &str, model: &str| PhaseConfig {
        name: name.to_owned(),
        model: model.to_owned(),
    };
    Config {
        stack: "rust".to_owned(),
        phases: vec![
            phase("enriching", "opus"),
            phase("in_progress", "sonnet"),
            phase("done", "haiku"),
        ],
        verification: VerificationConfig { commands: vec![] },
        acceptance_testing: "cli".to_owned(),
        max_retries: 3,
        prd_path: None,
    }
}

fn test_project() -> Project {
    Project {
        git_root: "/work/test".to_owned(),
        slug: "test".to_owned(),
        state_dir: "/work/test".to_owned(),
        global_config: GlobalConfig::default(),
    }
}

fn written(tasks: &[Task]) -> TasksRead {
    TasksRead::Parsed {
        tasks: tasks
            .iter()
            .map(|task| TaskWire {
                task: task.clone(),
                workflow: Some(task.workflow.clone()),
                has_state_machine: false,
            })
            .collect(),
    }
}

fn files(tasks: &[Task]) -> LineFiles {
    LineFiles { config: ConfigRead::Parsed { file: config_file() }, tasks: written(tasks) }
}

fn test_store() -> TaskStore {
    TaskStore::new("/work/test", TasksRead::Missing, &line_as_workflow(&test_config())).unwrap()
}

fn add(store: &mut TaskStore, title: &str, dependencies: Vec<String>) {
    store.add_task(title, "", dependencies, None, "default".to_owned()).unwrap();
}

fn saved<'a>(tasks: &'a [Task], id: &str) -> &'a Task {
    tasks.iter().find(|task| task.id == id).unwrap()
}

#[test]
fn missing_artifact_returns_error() {
    let error = run_done(&test_project(), &files(&[]), "task-001", None).1.unwrap_err();

    assert!(matches!(error, DoneError::MissingArtifact));
}

#[test]
fn empty_artifact_returns_error() {
    for artifact in ["", "  "] {
        let error =
            run_done(&test_project(), &files(&[]), "task-001", Some(artifact)).1.unwrap_err();

        assert!(matches!(error, DoneError::EmptyArtifact));
    }
}

#[test]
fn nonfinalterminal_advance_records_artifact_and_prints_arrow() {
    let mut store = test_store();
    add(&mut store, "First", vec![]);

    let (report, result) =
        run_done(&test_project(), &files(store.all_tasks()), "task-001", Some("tests pass"));
    result.unwrap();

    assert_eq!(report.output, vec!["task-001 → in_progress"]);

    let tasks = report.tasks.unwrap();
    let task = saved(&tasks, "task-001");
    assert_eq!(task.state, "in_progress");

    let phase = task.phases.get("enriching").unwrap();
    assert_eq!(phase.artifact, "tests pass");
    assert!(Instant::parse(&phase.completed_at).is_some());
}

#[test]
fn terminal_advance_prints_done_checkmark() {
    let mut store = test_store();
    add(&mut store, "First", vec![]);
    store.next_phase("task-001").unwrap();

    let (report, result) =
        run_done(&test_project(), &files(store.all_tasks()), "task-001", Some("final artifact"));
    result.unwrap();

    assert_eq!(report.output, vec!["task-001 done ✓"]);

    let tasks = report.tasks.unwrap();
    let task = saved(&tasks, "task-001");
    assert_eq!(task.state, "done");

    let phase = task.phases.get("in_progress").unwrap();
    assert_eq!(phase.artifact, "final artifact");
}

#[test]
fn done_task_not_found_returns_error() {
    let error =
        run_done(&test_project(), &files(&[]), "task-999", Some("artifact")).1.unwrap_err();

    match error {
        DoneError::TaskNotFound { id } => assert_eq!(id, "task-999"),
        other => panic!("unexpected error: {other:?}"),
    }
}

#[test]
fn done_already_terminal_done_returns_error() {
    let mut store = test_store();
    add(&mut store, "First", vec![]);
    store.next_phase("task-001").unwrap();
    store.next_phase("task-001").unwrap();

    let error = run_done(&test_project(), &files(store.all_tasks()), "task-001", Some("too late"))
        .1
        .unwrap_err();

    match error {
        DoneError::AlreadyTerminal { id, state } => {
            assert_eq!(id, "task-001");
            assert_eq!(state, "done");
        }
        other => panic!("unexpected error: {other:?}"),
    }
}

#[test]
fn done_already_failed_returns_error() {
    let mut store = test_store();
    add(&mut store, "First", vec![]);
    store.fail_task("task-001", "failed").unwrap();

    let error = run_done(&test_project(), &files(store.all_tasks()), "task-001", Some("too late"))
        .1
        .unwrap_err();

    match error {
        DoneError::AlreadyTerminal { id, state } => {
            assert_eq!(id, "task-001");
            assert_eq!(state, "failed");
        }
        other => panic!("unexpected error: {other:?}"),
    }
}

#[test]
fn dependency_blocked_does_not_record_artifact() {
    let mut store = test_store();
    add(&mut store, "Dependency", vec![]);
    add(&mut store, "Dependent", vec!["task-001".to_owned()]);

    let (report, result) = run_done(
        &test_project(),
        &files(store.all_tasks()),
        "task-002",
        Some("blocked artifact"),
    );

    assert!(matches!(
        result.unwrap_err(),
        DoneError::StoreError(StoreError::DependencyBlocked { .. })
    ));
    assert!(report.tasks.is_none());
    assert!(store.get_task("task-002").unwrap().phases.is_empty());
}

#[test]
fn missing_reason_returns_error() {
    let error = run_fail(&test_project(), &files(&[]), "task-001", None).1.unwrap_err();

    assert!(matches!(error, FailError::MissingReason));
    assert_eq!(error.message(), "--reason is required");
}

#[test]
fn empty_reason_returns_error() {
    for reason in ["", "  "] {
        let error = run_fail(&test_project(), &files(&[]), "task-001", Some(reason)).1.unwrap_err();

        assert!(matches!(error, FailError::EmptyReason));
        assert_eq!(error.message(), "reason must not be empty");
    }
}

#[test]
fn retry_decrements_below_max() {
    let mut store = test_store();
    add(&mut store, "First", vec![]);
    store.next_phase("task-001").unwrap();

    let (report, result) =
        run_fail(&test_project(), &files(store.all_tasks()), "task-001", Some("compilation error"));
    result.unwrap();

    assert_eq!(report.output, vec!["task-001 retrying (1/3): compilation error"]);

    let tasks = report.tasks.unwrap();
    let task = saved(&tasks, "task-001");
    assert_eq!(task.state, "enriching");
    assert_eq!(task.retry_count, 1);
    assert_eq!(task.max_retries, 3);

    let last = task.history.last().unwrap();
    assert_eq!(last.from.as_deref(), Some("in_progress"));
    assert_eq!(last.to, "enriching");
    assert_eq!(last.reason, "retry 1/3: compilation error");
    assert!(Instant::parse(&last.timestamp).is_some());
}

#[test]
fn retry_when_next_count_is_still_below_max() {
    let mut store = test_store();
    add(&mut store, "First", vec![]);
    start_over(&mut store, "task-001", "first transient failure", STAMP).unwrap();

    let (report, result) = run_fail(
        &test_project(),
        &files(store.all_tasks()),
        "task-001",
        Some("second transient failure"),
    );
    result.unwrap();

    assert_eq!(
        report.output,
        vec!["task-001 retrying (2/3): second transient failure"]
    );

    let tasks = report.tasks.unwrap();
    let task = saved(&tasks, "task-001");
    assert_eq!(task.state, "enriching");
    assert_eq!(task.retry_count, 2);
    assert_eq!(
        task.history.last().unwrap().reason,
        "retry 2/3: second transient failure"
    );
}

#[test]
fn terminal_fail_when_at_max_minus_one() {
    let mut store = test_store();
    add(&mut store, "First", vec![]);

    let project = test_project();
    let (first, result) =
        run_fail(&project, &files(store.all_tasks()), "task-001", Some("first failure"));
    result.unwrap();
    let (second, result) =
        run_fail(&project, &files(&first.tasks.unwrap()), "task-001", Some("second failure"));
    result.unwrap();

    let (report, result) =
        run_fail(&project, &files(&second.tasks.unwrap()), "task-001", Some("still broken"));
    result.unwrap();

    assert_eq!(report.output, vec!["task-001 failed — max retries reached"]);

    let tasks = report.tasks.unwrap();
    let task = saved(&tasks, "task-001");
    assert_eq!(task.state, "failed");
    assert_eq!(task.retry_count, 2);

    let last = task.history.last().unwrap();
    assert_eq!(last.to, "failed");
    assert_eq!(last.reason, "failed (max retries): still broken");
    assert!(Instant::parse(&last.timestamp).is_some());
}

#[test]
fn terminal_fail_when_at_max() {
    let mut store = test_store();
    add(&mut store, "First", vec![]);
    start_over(&mut store, "task-001", "one", STAMP).unwrap();
    start_over(&mut store, "task-001", "two", STAMP).unwrap();
    start_over(&mut store, "task-001", "three", STAMP).unwrap();

    let (report, result) =
        run_fail(&test_project(), &files(store.all_tasks()), "task-001", Some("still broken"));
    result.unwrap();

    assert_eq!(report.output, vec!["task-001 failed — max retries reached"]);

    let tasks = report.tasks.unwrap();
    let task = saved(&tasks, "task-001");
    assert_eq!(task.state, "failed");
    assert_eq!(task.retry_count, 3);
    assert_eq!(
        task.history.last().unwrap().reason,
        "failed (max retries): still broken"
    );
}

#[test]
fn fail_already_failed_returns_error() {
    let mut store = test_store();
    add(&mut store, "First", vec![]);
    store.fail_task("task-001", "failed").unwrap();

    let (report, result) =
        run_fail(&test_project(), &files(store.all_tasks()), "task-001", Some("too late"));
    let error = result.unwrap_err();

    assert_eq!(error.message(), "task task-001 is already failed");
    match error {
        FailError::AlreadyFailed { id } => assert_eq!(id, "task-001"),
        other => panic!("unexpected error: {other:?}"),
    }

    assert!(report.tasks.is_none());
}

#[test]
fn fail_already_terminal_done_returns_error() {
    let mut store = test_store();
    add(&mut store, "First", vec![]);
    store.next_phase("task-001").unwrap();
    store.next_phase("task-001").unwrap();

    let (report, result) =
        run_fail(&test_project(), &files(store.all_tasks()), "task-001", Some("too late"));
    let error = result.unwrap_err();

    assert_eq!(error.message(), "task task-001 is already done");
    match error {
        FailError::AlreadyTerminal { id, state } => {
            assert_eq!(id, "task-001");
            assert_eq!(state, "done");
        }
        other => panic!("unexpected error: {other:?}"),
    }

    assert!(report.tasks.is_none());
}

#[test]
fn fail_task_not_found_returns_error() {
    let error = run_fail(&test_project(), &files(&[]), "task-999", Some("x")).1.unwrap_err();

    assert_eq!(error.message(), "task task-999 not found");
    match error {
        FailError::TaskNotFound { id } => assert_eq!(id, "task-999"),
        other => panic!("unexpected error: {other:?}"),
    }
}

#[test]
fn missing_config_returns_error() {
    let files = LineFiles { config: ConfigRead::Missing, tasks: TasksRead::Missing };

    let error = run_fail(&test_project(), &files, "task-001", Some("x")).1.unwrap_err();

    assert!(matches!(error, FailError::ConfigNotFound { .. }));
}

#[test]
fn malformed_config_returns_error() {
    let files = LineFiles {
        config: ConfigRead::Malformed { message: "EOF while parsing an object".to_owned() },
        tasks: TasksRead::Missing,
    };

    let error = run_fail(&test_project(), &files, "task-001", Some("x")).1.unwrap_err();

    assert!(matches!(error, FailError::ConfigLoad { .. }));
}

#[test]
fn empty_phases_returns_error() {
    let mut file = config_file();
    file.phases = Some(vec![]);
    file.state_machine = None;
    let files = LineFiles { config: ConfigRead::Parsed { file }, tasks: TasksRead::Missing };

    let error = run_fail(&test_project(), &files, "task-001", Some("x")).1.unwrap_err();

    assert!(matches!(error, FailError::InvalidConfig { .. }));
    assert_eq!(
        error.message(),
        "invalid config /work/test/config.json: phases must not be empty"
    );
}

fn phases_change(
    add: Option<&str>,
    after: Option<&str>,
    before: Option<&str>,
    remove: Option<&str>,
) -> PhasesChange {
    PhasesChange {
        add: add.map(str::to_owned),
        after: after.map(str::to_owned),
        before: before.map(str::to_owned),
        remove: remove.map(str::to_owned),
    }
}

fn change(tasks: &[Task], change: PhasesChange) -> Result<serde_json::Value, PhasesError> {
    let document = DocumentSeen::Text { text: DOCUMENT.to_owned() };
    let (report, result) = run_config_phases(&test_project(), &files(tasks), &document, &change);
    result.map(|()| serde_json::from_str(&report.config_text.unwrap()).unwrap())
}

fn phases(document: serde_json::Value) -> Vec<String> {
    document["state_machine"]
        .as_array()
        .unwrap()
        .iter()
        .map(|phase| phase.as_str().unwrap().to_owned())
        .collect()
}

#[test]
fn insert_after_existing_phase() {
    let after =
        change(&[], phases_change(Some("review"), Some("enriching"), None, None)).unwrap();

    assert_eq!(phases(after), vec!["enriching", "review", "in_progress", "done"]);
}

#[test]
fn insert_before_existing_phase() {
    let after = change(&[], phases_change(Some("review"), None, Some("done"), None)).unwrap();

    assert_eq!(phases(after), vec!["enriching", "in_progress", "review", "done"]);
}

#[test]
fn insert_appends_to_end_by_default() {
    let after = change(&[], phases_change(Some("deployed"), None, None, None)).unwrap();

    assert_eq!(phases(after), vec!["enriching", "in_progress", "done", "deployed"]);
}

#[test]
fn remove_existing_phase() {
    let after = change(&[], phases_change(None, None, None, Some("in_progress"))).unwrap();

    assert_eq!(phases(after), vec!["enriching", "done"]);
}

#[test]
fn duplicate_name_rejection() {
    let error = change(&[], phases_change(Some("enriching"), None, None, None)).unwrap_err();

    assert!(matches!(error, PhasesError::DuplicatePhase { name } if name == "enriching"));
}

#[test]
fn blocked_removal_lists_task_ids() {
    let mut store = test_store();
    add(&mut store, "Blocked task", vec![]);

    let error = change(
        store.all_tasks(),
        phases_change(None, None, None, Some("enriching")),
    )
    .unwrap_err();

    match error {
        PhasesError::PhaseBusy { name, task_ids } => {
            assert_eq!(name, "enriching");
            assert_eq!(task_ids, vec!["task-001"]);
        }
        other => panic!("expected PhaseBusy, got: {other:?}"),
    }
}

#[test]
fn no_operation_returns_error() {
    let error = change(&[], phases_change(None, None, None, None)).unwrap_err();

    assert!(matches!(error, PhasesError::NoOperation));
}

#[test]
fn after_and_before_together_returns_error() {
    let error = change(
        &[],
        phases_change(Some("new"), Some("done"), Some("in_progress"), None),
    )
    .unwrap_err();

    assert!(matches!(error, PhasesError::ConflictingPositionFlags));
}

#[test]
fn after_nonexistent_phase_returns_error() {
    let error =
        change(&[], phases_change(Some("new"), Some("nonexistent"), None, None)).unwrap_err();

    assert!(matches!(error, PhasesError::PhaseNotFound { name } if name == "nonexistent"));
}

#[test]
fn before_nonexistent_phase_returns_error() {
    let error =
        change(&[], phases_change(Some("new"), None, Some("nonexistent"), None)).unwrap_err();

    assert!(matches!(error, PhasesError::PhaseNotFound { name } if name == "nonexistent"));
}

#[test]
fn add_and_remove_together() {
    let after =
        change(&[], phases_change(Some("review"), None, None, Some("in_progress"))).unwrap();

    assert_eq!(phases(after), vec!["enriching", "done", "review"]);
}

#[test]
fn write_only_patches_state_machine_field() {
    let original_value: serde_json::Value = serde_json::from_str(DOCUMENT).unwrap();

    let updated_value =
        change(&[], phases_change(Some("review"), None, Some("done"), None)).unwrap();

    for (key, orig_val) in original_value.as_object().unwrap() {
        if key != "state_machine" {
            assert_eq!(
                updated_value.get(key),
                Some(orig_val),
                "field '{key}' changed unexpectedly"
            );
        }
    }
}

#[test]
fn remove_phase_with_no_active_tasks_succeeds() {
    let after = change(&[], phases_change(None, None, None, Some("in_progress"))).unwrap();

    assert_eq!(phases(after), vec!["enriching", "done"]);
}

#[test]
fn multiple_tasks_blocked_removal_lists_all() {
    let mut store = test_store();
    add(&mut store, "Task A", vec![]);
    add(&mut store, "Task B", vec![]);

    let error = change(
        store.all_tasks(),
        phases_change(None, None, None, Some("enriching")),
    )
    .unwrap_err();

    match error {
        PhasesError::PhaseBusy { task_ids, .. } => {
            assert!(task_ids.contains(&"task-001".to_owned()));
            assert!(task_ids.contains(&"task-002".to_owned()));
        }
        other => panic!("expected PhaseBusy, got: {other:?}"),
    }
}

#[test]
fn a_document_that_is_no_object_is_left_alone() {
    let wanted = phases_change(Some("review"), None, None, None);
    let list = DocumentSeen::Text { text: "[1]".to_owned() };
    assert!(try_config_phases(&test_project(), &files(&[]), &list, &wanted).is_none());

    let object = DocumentSeen::Text { text: "{\"a\": 1}".to_owned() };
    let (report, result) =
        try_config_phases(&test_project(), &files(&[]), &object, &wanted).unwrap();
    result.unwrap();
    assert_eq!(
        report.report.output,
        vec!["state_machine: enriching → in_progress → done → review"]
    );
    let broken = DocumentSeen::Text { text: "{".to_owned() };
    let (_, result) = try_config_phases(&test_project(), &files(&[]), &broken, &wanted).unwrap();
    assert!(matches!(result, Err(PhasesError::ConfigLoad { .. })));
    let failed = DocumentSeen::Failed { message: "denied".to_owned() };
    let (_, result) = try_config_phases(&test_project(), &files(&[]), &failed, &wanted).unwrap();
    assert!(matches!(result, Err(PhasesError::ConfigRead { .. })));
}
