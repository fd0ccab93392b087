//! What is shown of a project.

use agira::commands::report::ProjectFiles;
use agira::commands::runner::{PaneSeen, RunnerStatusOutput, SessionSeen};
use agira::commands::status::{
    format_runner_header, format_status_table, hook_log_has_recent_failure, run_inspect,
    run_status_by_clock, run_status_with_tmux_at, runner_header_with_tmux, sort_tasks_by_id_asc,
    FileSeen, StatusError, StatusReport, StatusSeen,
};
use agira::engine::config::{Config, ConfigRead, PhaseDef};
use agira::engine::global_config::{GlobalConfig, TextRead};
use agira::engine::hooks::HookConfig;
use agira::engine::project::Project;
use agira::engine::runner::{RunnerStore, RunnersRead};
use agira::engine::tasks::{Task, TaskWire, TasksRead};
use agira::string_map::StringMap;
use agira::time::Instant;

#[test]
fn header_live_runner_holding_task() {
    let status = RunnerStatusOutput {
        runner_id: Some("runner-a1b2c3".to_owned()),
        runner_type: Some("agent-tmux".to_owned()),
        current_task: Some("task-003".to_owned()),
        liveness: "live".to_owned(),
        heartbeat_age: Some("12s ago".to_owned()),
    };
    assert_eq!(
        format_runner_header(&status),
        "task-003 held by runner runner-a1b2c3 (agent-tmux), heartbeat 12s ago"
    );
}

#[test]
fn header_live_runner_idle_no_task() {
    let status = RunnerStatusOutput {
        runner_id: Some("runner-a1b2c3".to_owned()),
        runner_type: Some("agent-tmux".to_owned()),
        current_task: None,
        liveness: "live".to_owned(),
        heartbeat_age: Some("5s ago".to_owned()),
    };
    assert_eq!(
        format_runner_header(&status),
        "runner runner-a1b2c3 (agent-tmux) idle, heartbeat 5s ago"
    );
}

#[test]
fn header_no_runner_registered_no_session() {
    let status = RunnerStatusOutput {
        runner_id: None,
        runner_type: None,
        current_task: None,
        liveness: "none".to_owned(),
        heartbeat_age: None,
    };
    assert_eq!(format_runner_header(&status), "no runner");
}

#[test]
fn header_stale_dead_session_with_task() {
    let status = RunnerStatusOutput {
        runner_id: Some("runner-a1b2c3".to_owned()),
        runner_type: Some("agent-tmux".to_owned()),
        current_task: Some("task-003".to_owned()),
        liveness: "stale".to_owned(),
        heartbeat_age: Some("2h ago".to_owned()),
    };
    assert_eq!(
        format_runner_header(&status),
        "task-003 held by runner runner-a1b2c3 (agent-tmux) — stale"
    );
}

#[test]
fn header_stale_dead_session_no_task() {
    let status = RunnerStatusOutput {
        runner_id: Some("runner-a1b2c3".to_owned()),
        runner_type: Some("agent-tmux".to_owned()),
        current_task: None,
        liveness: "stale".to_owned(),
        heartbeat_age: None,
    };
    assert_eq!(
        format_runner_header(&status),
        "runner runner-a1b2c3 (agent-tmux) stale"
    );
}

#[test]
fn header_zombie_renders_as_stale() {
    let status = RunnerStatusOutput {
        runner_id: Some("runner-a1b2c3".to_owned()),
        runner_type: Some("agent-tmux".to_owned()),
        current_task: Some("task-005".to_owned()),
        liveness: "zombie".to_owned(),
        heartbeat_age: Some("3m ago".to_owned()),
    };
    // zombie with task → "held by ... — stale"
    let header = format_runner_header(&status);
    assert!(
        header.contains("stale"),
        "zombie should render as stale, got: {header}"
    );
    assert!(header.contains("task-005"));
}

#[test]
fn header_orphaned_session_no_registry_entry() {
    let status = RunnerStatusOutput {
        runner_id: None,
        runner_type: None,
        current_task: None,
        liveness: "unregistered".to_owned(),
        heartbeat_age: None,
    };
    assert_eq!(
        format_runner_header(&status),
        "runner session running but unregistered"
    );
}

fn fixed_now() -> Instant {
    Instant::parse("2026-06-11T12:00:00Z").expect("parse fixed time")
}

fn live() -> SessionSeen {
    SessionSeen::Present { pane: PaneSeen::Agent }
}

fn dead() -> SessionSeen {
    SessionSeen::Absent
}

fn zombie() -> SessionSeen {
    SessionSeen::Present { pane: PaneSeen::Dead }
}

fn test_config() -> Config {
    Config::new_single_workflow(
        "rust",
        vec![(
            "implementing".to_owned(),
            PhaseDef { model: Some("codex".to_owned()), duty: None, gate: None },
        )],
        3,
    )
}

fn make_project() -> Project {
    Project {
        git_root: "/tmp/test-status-repo".to_owned(),
        slug: "test-status-repo".to_owned(),
        state_dir: "/home/.agira/test-status-repo".to_owned(),
        global_config: GlobalConfig::for_program("agent"),
        global_hooks: HookConfig::default(),
        project_hooks: HookConfig::default(),
    }
}

fn runner_store() -> RunnerStore {
    RunnerStore::new("/home/.agira/test-status-repo", RunnersRead::Missing).expect("store")
}

fn registered(store: &RunnerStore) -> RunnersRead {
    RunnersRead::Parsed { registry: store.registry().clone() }
}

fn register_idle_runner(runner_id: &str) -> RunnersRead {
    let mut store = runner_store();
    store
        .register_at(runner_id, "agent-tmux", "agira-test-status-repo", fixed_now())
        .expect("register runner");
    registered(&store)
}

fn register_runner_with_task(runner_id: &str, task_id: &str) -> RunnersRead {
    let mut store = runner_store();
    store
        .register_at(runner_id, "agent-tmux", "agira-test-status-repo", fixed_now())
        .expect("register runner");
    store
        .acquire_lease(runner_id, task_id, 5 * 60, fixed_now())
        .expect("acquire lease");
    registered(&store)
}

fn task(id: &str, title: &str, state: &str) -> Task {
    Task {
        id: id.to_owned(),
        title: title.to_owned(),
        description: String::new(),
        state: state.to_owned(),
        blocked_at_phase: None,
        blocked_reason: None,
        clarifications: Vec::new(),
        dependencies: Vec::new(),
        retry_count: 0,
        max_retries: 3,
        phases: StringMap::new(),
        history: Vec::new(),
        created_at: "2026-06-11T12:00:00Z".to_owned(),
        workflow: "rust".to_owned(),
        locked_at: None,
        acceptance_criteria: None,
    }
}

fn seen(tasks: Option<Vec<Task>>, runners: RunnersRead, session: SessionSeen) -> StatusSeen {
    let (tasks_file, read) = match tasks {
        None => (FileSeen::Missing, TasksRead::Missing),
        Some(tasks) => (
            FileSeen::There,
            TasksRead::Parsed {
                tasks: tasks
                    .into_iter()
                    .map(|task| TaskWire {
                        workflow: Some(task.workflow.clone()),
                        task,
                        has_state_machine: false,
                    })
                    .collect(),
            },
        ),
    };
    StatusSeen {
        tasks_file,
        files: ProjectFiles {
            config: ConfigRead::Parsed {
                contents: "\"max_retries\"".to_owned(),
                config: test_config(),
            },
            tasks: read,
        },
        tasks_text: TextRead::Contents { text: "{ \"tasks\": [] }".to_owned() },
        runners,
        session,
        hook_log: Vec::new(),
        hook_log_path: "/home/.agira/test-status-repo/hooks.log".to_owned(),
    }
}

fn run(seen: &StatusSeen, json: bool, filter: Option<&str>, now: Instant) -> StatusReport {
    let (report, result) =
        run_status_with_tmux_at(&make_project(), seen, json, filter, None, None, now);
    result.expect("run_status");
    report
}

fn text(report: &StatusReport) -> String {
    report.report.output.iter().map(|line| format!("{line}\n")).collect()
}

#[test]
fn runner_header_with_tmux_live_with_task() {
    let read = register_runner_with_task("runner-abc", "task-007");

    let status = runner_header_with_tmux(
        &make_project(),
        &read,
        &live(),
        fixed_now().plus_seconds(12),
    );
    assert_eq!(status.liveness, "live");
    assert_eq!(status.current_task.as_deref(), Some("task-007"));
    assert_eq!(status.heartbeat_age.as_deref(), Some("12s ago"));
}

#[test]
fn runner_header_with_tmux_idle_no_task() {
    let read = register_idle_runner("runner-idle");

    let status = runner_header_with_tmux(&make_project(), &read, &live(), fixed_now());
    assert_eq!(status.liveness, "idle");
    assert!(status.current_task.is_none());
}

#[test]
fn runner_header_with_tmux_no_runner() {
    let status =
        runner_header_with_tmux(&make_project(), &RunnersRead::Missing, &dead(), fixed_now());
    assert_eq!(status.liveness, "none");
    assert!(status.runner_id.is_none());
}

#[test]
fn runner_header_with_tmux_stale_dead_session() {
    let read = register_idle_runner("runner-dead");

    let status = runner_header_with_tmux(&make_project(), &read, &dead(), fixed_now());
    assert_eq!(status.liveness, "stale");
}

#[test]
fn runner_header_with_tmux_stale_expired_lease() {
    let read = register_runner_with_task("runner-stale-lease", "task-010");

    let status = runner_header_with_tmux(
        &make_project(),
        &read,
        &live(),
        fixed_now().plus_seconds(10 * 60),
    );
    assert_eq!(status.liveness, "stale");
}

#[test]
fn runner_header_with_tmux_zombie() {
    let read = register_idle_runner("runner-zombie");

    let status = runner_header_with_tmux(&make_project(), &read, &zombie(), fixed_now());
    assert_eq!(status.liveness, "zombie");
}

#[test]
fn runner_header_with_tmux_orphaned_session() {
    let status =
        runner_header_with_tmux(&make_project(), &RunnersRead::Missing, &live(), fixed_now());
    assert_eq!(
        status.liveness, "unregistered",
        "expected unregistered liveness, got: {}",
        status.liveness
    );
    assert!(status.runner_id.is_none());
}

#[test]
fn task_list_plain_shows_runner_header_above_table() {
    let read = register_runner_with_task("runner-hdr", "task-001");
    let tasks = vec![task("task-001", "header test task", "implementing")];

    let output = text(&run(
        &seen(Some(tasks), read, live()),
        false,
        None,
        fixed_now().plus_seconds(12),
    ));

    let header_pos = output
        .find("runner runner-hdr")
        .expect("runner header not found in output");
    let table_header_pos = output.find("ID").expect("table header not found");
    assert!(
        header_pos < table_header_pos,
        "runner header must appear before table header\noutput:\n{output}"
    );
    assert!(
        output.contains("\n\n"),
        "expected blank line between header and table\noutput:\n{output}"
    );
}

#[test]
fn task_list_plain_shows_no_runner_when_none_registered() {
    let tasks = vec![task("task-001", "no runner task", "implementing")];

    let output = text(&run(
        &seen(Some(tasks), RunnersRead::Missing, dead()),
        false,
        None,
        fixed_now(),
    ));

    assert!(
        output.contains("no runner"),
        "expected 'no runner' in output\noutput:\n{output}"
    );
}

#[test]
fn task_list_plain_no_runner_header_when_single_task_filter() {
    let read = register_idle_runner("runner-filter-test");
    let tasks = vec![task("task-001", "filter task", "implementing")];

    let output = text(&run(
        &seen(Some(tasks), read, live()),
        false,
        Some("task-001"),
        fixed_now(),
    ));

    assert!(
        !output.contains("runner runner-filter-test"),
        "runner header must NOT appear when single-task filter is supplied\noutput:\n{output}"
    );
}

#[test]
fn task_list_plain_shows_runner_header_above_no_tasks_message() {
    let output = text(&run(
        &seen(None, RunnersRead::Missing, dead()),
        false,
        None,
        fixed_now(),
    ));

    assert!(
        output.contains("no runner"),
        "runner header expected above No tasks message\noutput:\n{output}"
    );
    assert!(
        output.contains("No tasks"),
        "No tasks message must be present\noutput:\n{output}"
    );
    let runner_pos = output.find("no runner").expect("no runner header");
    let tasks_pos = output.find("No tasks").expect("No tasks message");
    assert!(
        runner_pos < tasks_pos,
        "runner header must appear before No tasks message"
    );
}

#[test]
fn task_list_json_includes_runner_object() {
    let read = register_runner_with_task("runner-json", "task-003");

    let report = run(
        &seen(Some(vec![]), read, live()),
        true,
        None,
        fixed_now().plus_seconds(5),
    );

    let output = report.raw.expect("raw output");
    let value: serde_json::Value = serde_json::from_str(&output).expect("output is valid JSON");
    assert!(
        value.get("tasks").is_some(),
        "JSON must contain 'tasks' key"
    );
    let runner_obj = value.get("runner").expect("JSON must contain 'runner' key");
    assert!(runner_obj.get("runner_id").is_some(), "runner_id missing");
    assert!(
        runner_obj.get("runner_type").is_some(),
        "runner_type missing"
    );
    assert!(
        runner_obj.get("current_task").is_some(),
        "current_task missing"
    );
    assert!(runner_obj.get("liveness").is_some(), "liveness missing");
    assert!(
        runner_obj.get("heartbeat_age").is_some(),
        "heartbeat_age missing"
    );
    assert_eq!(runner_obj["liveness"], "live");
    assert_eq!(runner_obj["current_task"], "task-003");
}

#[test]
fn task_list_json_runner_none_when_no_runner_registered() {
    let report = run(
        &seen(Some(vec![]), RunnersRead::Missing, dead()),
        true,
        None,
        fixed_now(),
    );

    let output = report.raw.expect("raw output");
    let value: serde_json::Value = serde_json::from_str(&output).expect("output is valid JSON");
    let runner_obj = value.get("runner").expect("runner key must exist");
    assert_eq!(runner_obj["liveness"], "none");
    assert!(runner_obj["runner_id"].is_null());
    assert!(runner_obj["runner_type"].is_null());
    assert!(runner_obj["current_task"].is_null());
    assert!(runner_obj["heartbeat_age"].is_null());
}

#[test]
fn task_list_json_no_runner_object_when_single_task_filter() {
    let tasks = vec![task("task-001", "json filter task", "implementing")];

    let report = run(
        &seen(Some(tasks), RunnersRead::Missing, live()),
        true,
        Some("task-001"),
        fixed_now(),
    );

    assert!(
        report.raw.is_none(),
        "runner key must NOT be present for single-task --json"
    );
    assert_eq!(report.task.expect("the task itself").title, "json filter task");
}

#[test]
fn tasks_are_listed_by_number() {
    let tasks = vec![
        task("task-010", "ten", "pending"),
        task("task-002", "two", "done"),
        task("task-001", "one", "implementing"),
    ];
    let sorted = sort_tasks_by_id_asc(&tasks);
    let ids: Vec<&str> = sorted.iter().map(|task| task.id.as_str()).collect();
    assert_eq!(ids, vec!["task-001", "task-002", "task-010"]);
    let table = format_status_table(&sorted, "done");
    assert_eq!(table.lines().filter(|line| line.contains("task-0")).count(), 3);
}

#[test]
fn a_recent_failure_of_a_hook_is_noticed() {
    let line = |timestamp: &str| format!("{timestamp}\tdone\ttask-001\tx\texit_status: 1");
    assert!(hook_log_has_recent_failure(&[line("2026-06-11T00:00:00Z")], fixed_now()));
    assert!(hook_log_has_recent_failure(&[line("2026-06-10T12:00:00Z")], fixed_now()));
    assert!(!hook_log_has_recent_failure(&[line("2026-06-10T11:59:59Z")], fixed_now()));
    assert!(!hook_log_has_recent_failure(
        &["no field".to_owned(), line("never")],
        fixed_now()
    ));
}

#[test]
fn a_task_is_shown_in_full() {
    let tasks = vec![task("task-001", "the whole of it", "implementing")];
    let state = seen(Some(tasks), RunnersRead::Missing, dead());
    let (report, result) = run_inspect(&make_project(), &state, "task-001");
    assert_eq!(result, Ok(()));
    assert!(report.output.concat().contains("the whole of it"));
    assert_eq!(
        run_inspect(&make_project(), &state, "task-009").1,
        Err(StatusError::TaskNotFound { id: "task-009".to_owned() })
    );
}

#[test]
fn a_recent_failure_goes_by_the_clock() {
    let mut state = seen(None, RunnersRead::Missing, dead());
    state.hook_log = vec!["2026-06-11T00:00:00Z\tdone\ttask-001\tx\texit_status: 1".to_owned()];
    let warnings = |clock: Instant, now: Instant| {
        run_status_by_clock(&make_project(), &state, false, None, None, None, clock, now)
            .0
            .report
            .warnings
    };
    let later = fixed_now().plus_seconds(7 * 86_400);

    assert_eq!(
        warnings(fixed_now(), later),
        vec!["warning: recent hook failures in /home/.agira/test-status-repo/hooks.log"]
    );
    assert!(warnings(later, fixed_now()).is_empty());
}
