//! The projects of a user, listed.

use agira::commands::project::{
    agira_root_from_home, format_project_list_output, list_initialized_projects, run_project_list,
    EntrySeen, ProjectListError, ProjectListJsonRow, ProjectListOutput, ProjectSeen, RootSeen,
};
use agira::engine::config::{Config, ConfigRead, PhaseDef};
use agira::engine::tasks::{Task, TaskWire, TasksRead};
use agira::string_map::StringMap;
use agira::time::Instant;

const ROOT: &str = "/home/.agira";

fn now() -> Instant {
    Instant::parse("2026-01-02T00:00:00Z").unwrap()
}

fn write_project(
    slug: &str,
    source_path: Option<&str>,
    source_exists: bool,
    tasks: TasksRead,
) -> ProjectSeen {
    let config = Config::new_single_workflow(
        "test",
        vec![
            ("enriching".to_owned(), PhaseDef::default()),
            ("implementing".to_owned(), PhaseDef::default()),
            ("reviewing".to_owned(), PhaseDef::default()),
        ],
        3,
    );
    let seen = RootSeen::Entries {
        entries: vec![EntrySeen::Found {
            name: slug.to_owned(),
            path: format!("{ROOT}/{slug}"),
            directory: true,
            has_config: true,
            source_text: source_path.map(|path| format!("{path}\n")),
        }],
    };
    let entry = list_initialized_projects(ROOT, &seen).unwrap().remove(0);
    ProjectSeen {
        entry,
        source_exists,
        config: ConfigRead::Parsed { contents: "\"max_retries\"".to_owned(), config },
        tasks,
    }
}

fn task(id: &str, state: &str) -> Task {
    Task {
        id: id.to_owned(),
        title: format!("title {id}"),
        description: "description".to_owned(),
        state: state.to_owned(),
        blocked_at_phase: None,
        blocked_reason: None,
        clarifications: Vec::new(),
        dependencies: Vec::new(),
        retry_count: 0,
        max_retries: 3,
        phases: StringMap::new(),
        history: Vec::new(),
        created_at: "2026-01-01T00:00:00Z".to_owned(),
        workflow: "default".to_owned(),
        locked_at: None,
        acceptance_criteria: None,
    }
}

fn written(tasks: Vec<Task>) -> TasksRead {
    TasksRead::Parsed {
        tasks: tasks
            .into_iter()
            .map(|task| TaskWire {
                workflow: Some(task.workflow.clone()),
                task,
                has_state_machine: false,
            })
            .collect(),
    }
}

fn corrupt() -> TasksRead {
    TasksRead::Malformed { message: "key must be a string at line 1 column 2".to_owned() }
}

fn render_human(projects: &[ProjectSeen], show_stale: bool) -> String {
    match format_project_list_output(projects, false, show_stale, now()) {
        ProjectListOutput::Text { text } => text,
        other => panic!("expected text, got: {other:?}"),
    }
}

fn render_json(projects: &[ProjectSeen], show_stale: bool) -> Vec<ProjectListJsonRow> {
    match format_project_list_output(projects, true, show_stale, now()) {
        ProjectListOutput::Rows { rows } => rows,
        other => panic!("expected rows, got: {other:?}"),
    }
}

#[test]
fn normal_multi_project_progress_active_counts_and_sorting() {
    let projects = vec![
        write_project(
            "alpha",
            Some("/src/alpha-src"),
            true,
            written(vec![
                task("task-001", "done"),
                task("task-002", "blocked"),
                task("task-003", "failed"),
                task("task-004", "implementing"),
            ]),
        ),
        write_project(
            "done",
            Some("/src/done-src"),
            true,
            written(vec![task("task-030", "done"), task("task-031", "done")]),
        ),
        write_project(
            "zeta",
            Some("/src/zeta-src"),
            true,
            written(vec![task("task-020", "implementing")]),
        ),
    ];

    let output = render_human(&projects, false);
    let alpha_idx = output.find("alpha").expect("alpha row");
    let zeta_idx = output.find("zeta").expect("zeta row");
    let done_idx = output.find("done").expect("done row");
    assert!(alpha_idx < zeta_idx, "active projects sort alphabetically");
    assert!(
        zeta_idx < done_idx,
        "done projects sort after active projects"
    );
    assert!(output.contains("alpha"));
    assert!(output.contains("1/4"));
    assert!(output.contains("task-004 (implementing)"));
    assert!(output.contains("      1       1"));
    assert!(output.contains("done"));
    assert!(output.contains("2/2"));
}

#[test]
fn stale_projects_hide_by_default_and_show_with_marker() {
    let stale_source = "/src/missing-src";
    let projects = vec![
        write_project("live", Some("/src/live-src"), true, written(vec![])),
        write_project("stale", Some(stale_source), false, written(vec![])),
    ];

    let hidden = render_human(&projects, false);
    assert!(hidden.contains("live"));
    assert!(!hidden.contains(stale_source));
    assert!(hidden.ends_with("1 stale project hidden (use --stale to show)"));

    let shown = render_human(&projects, true);
    assert!(shown.contains("stale"));
    assert!(shown.contains(&format!("{stale_source} (missing)")));
    assert!(!shown.contains("hidden (use --stale to show)"));
}

#[test]
fn corrupt_tasks_json_renders_inline_error_and_continues() {
    let projects = vec![
        write_project("bad", Some("/src/bad-src"), true, corrupt()),
        write_project(
            "good",
            Some("/src/good-src"),
            true,
            written(vec![task("task-001", "implementing")]),
        ),
    ];

    let output = render_human(&projects, false);
    assert!(output.contains("bad"));
    assert!(output.contains("error: invalid tasks.json"));
    assert!(output.contains("good"));
    assert!(output.contains("task-001 (implementing)"));
}

#[test]
fn json_output_shape_includes_stale_and_nullable_error_fields() {
    let source = "/src/src";
    let projects = vec![
        write_project(
            "alpha",
            Some(source),
            true,
            written(vec![task("task-001", "implementing"), task("task-002", "done")]),
        ),
        write_project("bad", Some("/src/missing-src"), false, corrupt()),
    ];

    assert_eq!(render_json(&projects, false), render_json(&projects, true));

    let rows = render_json(&projects, false);
    assert_eq!(rows.len(), 2);
    assert_eq!(rows[0].slug, "alpha");
    assert_eq!(rows[0].source_path.as_deref(), Some(source));
    assert_eq!(rows[0].state_dir, format!("{ROOT}/alpha"));
    assert_eq!(rows[0].total, Some(2));
    assert_eq!(rows[0].done, Some(1));
    assert_eq!(rows[0].blocked, Some(0));
    assert_eq!(rows[0].failed, Some(0));
    let active = rows[0].active.as_ref().unwrap();
    assert_eq!(active.id, "task-001");
    assert_eq!(active.phase, "implementing");
    assert!(!rows[0].stale);
    assert!(rows[0].error.is_none());

    assert_eq!(rows[1].slug, "bad");
    assert!(rows[1].total.is_none());
    assert!(rows[1].done.is_none());
    assert!(rows[1].blocked.is_none());
    assert!(rows[1].failed.is_none());
    assert!(rows[1].active.is_none());
    assert!(rows[1].stale);
    assert_eq!(rows[1].error.as_deref(), Some("invalid tasks.json"));
}

#[test]
fn empty_agira_root_outputs_empty_human_and_empty_json() {
    let none = RootSeen::Entries { entries: vec![] };
    assert!(list_initialized_projects(ROOT, &none).unwrap().is_empty());

    assert_eq!(render_human(&[], false), "");
    assert_eq!(render_json(&[], false), vec![]);
    assert_eq!(
        run_project_list(&[], true, false),
        ProjectListOutput::Rows { rows: vec![] }
    );
}

#[test]
fn only_directories_with_a_config_are_projects() {
    let found = |name: &str, directory: bool, has_config: bool| EntrySeen::Found {
        name: name.to_owned(),
        path: format!("{ROOT}/{name}"),
        directory,
        has_config,
        source_text: None,
    };
    let seen = RootSeen::Entries {
        entries: vec![
            found("zeta", true, true),
            found("config.toml", false, false),
            found("empty", true, false),
            found("alpha", true, true),
        ],
    };
    let names: Vec<String> = list_initialized_projects(ROOT, &seen)
        .unwrap()
        .into_iter()
        .map(|entry| entry.name)
        .collect();
    assert_eq!(names, vec!["alpha", "zeta"]);

    assert!(list_initialized_projects(ROOT, &RootSeen::Missing).unwrap().is_empty());
    assert_eq!(
        list_initialized_projects(ROOT, &RootSeen::Failed { message: "m".to_owned() }).unwrap_err(),
        ProjectListError::Read { path: ROOT.to_owned(), message: "m".to_owned() }
    );
    assert_eq!(agira_root_from_home(Some("/home")), Ok(ROOT.to_owned()));
    assert_eq!(agira_root_from_home(None), Err(ProjectListError::HomeDirectoryMissing));
}
