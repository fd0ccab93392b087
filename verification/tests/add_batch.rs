//! Many tasks added at once.

use agira::commands::add_batch::{
    add_batch_flow_with_ensure, build_plan, run_add_batch_at, AddBatchError, AddBatchOptions,
    ManifestSeen, ManifestTask,
};
use agira::commands::report::ProjectFiles;
use agira::engine::config::{Config, ConfigRead, PhaseDef};
use agira::engine::global_config::GlobalConfig;
use agira::engine::hooks::{HookConfig, HookEntry};
use agira::engine::project::Project;
use agira::engine::tasks::{TaskStore, TasksRead};
use agira::time::Instant;

const STAMP: &str = "2026-06-11T12:00:00+00:00";

fn test_config() -> Config {
    Config::new_single_workflow(
        "rust",
        vec![(
            "implementing".to_owned(),
            PhaseDef { model: None, duty: None, gate: None },
        )],
        3,
    )
}

fn make_project(auto_start: bool) -> Project {
    let mut global_config = GlobalConfig::for_program("agent");
    global_config.runner.auto_start = auto_start;
    global_config.runner.runner_type = "agent-tmux".to_owned();
    Project {
        git_root: "/tmp/test-repo".to_owned(),
        slug: "test-repo".to_owned(),
        state_dir: "/home/.agira/test-repo".to_owned(),
        global_config,
        global_hooks: HookConfig::default(),
        project_hooks: HookConfig::default(),
    }
}

fn entry(id: &str, title: &str, depends_on: &[&str]) -> ManifestTask {
    ManifestTask {
        id: Some(id.to_owned()),
        title: title.to_owned(),
        description: String::new(),
        depends_on: depends_on.iter().map(|id| id.to_string()).collect(),
        phase: None,
        workflow: None,
    }
}

fn options() -> AddBatchOptions {
    AddBatchOptions {
        file: None,
        stdin: true,
        dry_run: false,
        json: false,
        workflow: None,
        phase: None,
    }
}

#[test]
fn runner_ensure_runs_at_most_once_for_batch() {
    let project = make_project(true);
    let config = test_config();
    let mut store =
        TaskStore::new(&project.state_dir, TasksRead::Missing, &config).expect("task store");
    let manifest = vec![entry("a", "a", &[]), entry("b", "b", &["a"])];
    let plan = build_plan(&manifest, &store, &config, &options()).unwrap();

    let (report, result) = add_batch_flow_with_ensure(
        &project,
        &mut store,
        &plan,
        true,
        false,
        "agent-tmux",
        STAMP,
    );
    result.unwrap();

    let calls = report.ensure_runner.iter().count();
    assert_eq!(calls, 1);
    assert_eq!(store.all_tasks().len(), 2);
}

#[test]
fn names_of_a_batch_stand_for_the_numbers_given() {
    let project = make_project(false);
    let config = test_config();
    let mut store = TaskStore::new("/state", TasksRead::Missing, &config).unwrap();
    store.add_task("before", "", vec![], None, "default".to_owned()).unwrap();
    let manifest = vec![
        entry("last", "l", &["first", "task-001"]),
        entry("first", "f", &[]),
    ];
    let plan = build_plan(&manifest, &store, &config, &options()).unwrap();

    assert_eq!(plan.alias_to_real_id.get("first").unwrap(), "task-002");
    assert_eq!(plan.alias_to_real_id.get("last").unwrap(), "task-003");
    add_batch_flow_with_ensure(&project, &mut store, &plan, false, false, "agent-tmux", STAMP)
        .1
        .unwrap();
    let last = store.get_task("task-003").unwrap();
    assert_eq!(last.title, "l");
    assert_eq!(last.dependencies, vec!["task-002", "task-001"]);
    assert_eq!(last.created_at, STAMP);
}

fn failure(manifest: &[ManifestTask]) -> String {
    let config = test_config();
    let store = TaskStore::new("/state", TasksRead::Missing, &config).unwrap();
    build_plan(manifest, &store, &config, &options()).unwrap_err().message()
}

#[test]
fn a_batch_that_cannot_be_carried_out_is_refused() {
    assert_eq!(
        failure(&[entry("a", "a", &["b"]), entry("b", "b", &["a"])]),
        "dependency cycle among manifest tasks"
    );
    for wrong in [
        vec![entry("a", "a", &[]), entry("a", "b", &[])],
        vec![entry("a", "a", &["nobody"])],
        vec![entry("a", "same", &[]), entry("b", "same", &[])],
    ] {
        assert!(!failure(&wrong).is_empty());
    }
}

#[test]
fn a_batch_is_tried_out_without_being_saved() {
    let project = make_project(true);
    let files = ProjectFiles {
        config: ConfigRead::Parsed {
            contents: "\"max_retries\"".to_owned(),
            config: test_config(),
        },
        tasks: TasksRead::Missing,
    };
    let mut wanted = options();
    wanted.dry_run = true;
    let now = Instant::parse("2026-06-11T12:00:00Z").unwrap();
    let seen = ManifestSeen::Parsed { tasks: vec![entry("a", "a", &[]), entry("b", "b", &["a"])] };

    let (report, result) = run_add_batch_at(&project, &files, &wanted, seen, None, now);

    assert_eq!(result, Ok(()));
    assert!(report.report.tasks.is_none());
    assert!(report.ensure_runner.is_none());

    let seen = ManifestSeen::Malformed { message: "line 1".to_owned() };
    assert_eq!(
        run_add_batch_at(&project, &files, &wanted, seen, None, now).1,
        Err(AddBatchError::ManifestParse { message: "line 1".to_owned() })
    );
    let seen = ManifestSeen::StdinFailed { message: "closed".to_owned() };
    assert_eq!(
        run_add_batch_at(&project, &files, &wanted, seen, None, now).1,
        Err(AddBatchError::StdinRead { message: "closed".to_owned() })
    );
    let mut both = options();
    both.file = Some("tasks.toml".to_owned());
    let seen = ManifestSeen::FileFailed { path: "tasks.toml".to_owned(), message: "?".to_owned() };
    assert!(matches!(
        run_add_batch_at(&project, &files, &both, seen, None, now).1,
        Err(AddBatchError::User { .. })
    ));
}

#[test]
fn each_task_of_a_batch_is_saved_before_its_commands_are_run() {
    let mut project = make_project(false);
    project.project_hooks.hooks.push(HookEntry {
        on: "task_added".to_owned(),
        run: "echo added".to_owned(),
    });
    let files = ProjectFiles {
        config: ConfigRead::Parsed {
            contents: "\"max_retries\"".to_owned(),
            config: test_config(),
        },
        tasks: TasksRead::Missing,
    };
    let now = Instant::parse("2026-06-11T12:00:00Z").unwrap();
    let seen = ManifestSeen::Parsed { tasks: vec![entry("b", "b", &["a"]), entry("a", "a", &[])] };

    let (report, result) = run_add_batch_at(&project, &files, &options(), seen, None, now);

    assert_eq!(result, Ok(()));
    let titles: Vec<Vec<&str>> = report
        .steps
        .iter()
        .map(|step| step.tasks.iter().map(|task| task.title.as_str()).collect())
        .collect();
    assert_eq!(titles, vec![vec!["a"], vec!["a", "b"]]);
    assert_eq!(report.steps[0].run.context.task_id, "task-001");
    assert_eq!(report.steps[1].run.context.task_id, "task-002");
    assert_eq!(report.steps[1].run.event, "task_added");
    assert_eq!(report.steps[1].run.hooks[0].run, "echo added");
    assert!(report.report.tasks.is_none() && report.report.hooks.is_empty());
    assert_eq!(
        report.report.output,
        vec!["a -> task-001", "b -> task-002", "added task-001: a", "added task-002: b"]
    );
}
