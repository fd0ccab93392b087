//! Workflows and hooks of a project, listed and changed.

use agira::commands::hook::{
    command_from_parts, run_hook_add, run_hook_list, run_hook_remove, run_hook_update, shell_word,
    HookError, HookFileChange, HookFiles, HookScope,
};
use agira::commands::report::ProjectFiles;
use agira::commands::workflow::{
    run_workflow_add, run_workflow_list, run_workflow_remove, run_workflow_set_default,
    run_workflow_update, WorkflowListError,
};
use agira::engine::config::{Config, ConfigRead, PhaseDef};
use agira::engine::global_config::{GlobalConfig, TextRead};
use agira::engine::hooks::{HookConfig, HookEntry};
use agira::engine::project::Project;
use agira::engine::tasks::{TaskStore, TaskWire, TasksRead};

fn config() -> Config {
    Config::new_single_workflow(
        "test",
        vec![
            (
                "implementing".to_owned(),
                PhaseDef { model: Some("opus".to_owned()), ..PhaseDef::default() },
            ),
            ("reviewing".to_owned(), PhaseDef::default()),
        ],
        3,
    )
}

fn project() -> Project {
    Project {
        git_root: "/work/test".to_owned(),
        slug: "test".to_owned(),
        state_dir: "/agira/test".to_owned(),
        global_config: GlobalConfig::for_program("agent"),
        global_hooks: HookConfig::default(),
        project_hooks: HookConfig::default(),
    }
}

fn read(config: Config) -> ConfigRead {
    ConfigRead::Parsed { contents: "\"max_retries\"".to_owned(), config }
}

fn files(config: Config, tasks: TasksRead) -> ProjectFiles {
    ProjectFiles { config: read(config), tasks }
}

fn reason(error: WorkflowListError) -> String {
    match error {
        WorkflowListError::InvalidConfig { reason, .. } => reason,
        other => panic!("expected InvalidConfig, got: {other:?}"),
    }
}

fn in_phase(workflow: &str, phase: &str, config: &Config) -> TasksRead {
    let mut store = TaskStore::new("/s", TasksRead::Missing, config).unwrap();
    let task = store.add_task("t", "", vec![], Some(phase), workflow.to_owned()).unwrap();
    TasksRead::Parsed {
        tasks: vec![TaskWire {
            workflow: Some(task.workflow.clone()),
            task,
            has_state_machine: false,
        }],
    }
}

#[test]
fn a_workflow_is_added_changed_and_removed() {
    let project = project();
    let (report, added) = run_workflow_add(
        &project,
        &read(config()),
        "quick",
        vec!["implementing".to_owned()],
    );
    assert_eq!(report.output, vec!["workflow added: quick"]);
    let added = added.unwrap();
    assert_eq!(added.sequence("quick"), ["pending", "implementing", "done"]);

    let (_, list) = run_workflow_list(&project, &read(added.clone())).unwrap();
    assert_eq!(
        list,
        "default (default)  pending -> implementing:opus -> reviewing -> done\nquick  pending -> implementing:opus -> done\n"
    );

    let state = files(added.clone(), TasksRead::Missing);
    let (report, longer) = run_workflow_update(
        &project,
        &state,
        "quick",
        Some("reviewing"),
        Some("implementing"),
        None,
    );
    assert_eq!(report.output, vec!["workflow updated: quick"]);
    let longer = longer.unwrap();
    assert_eq!(
        longer.sequence("quick"),
        ["pending", "implementing", "reviewing", "done"]
    );
    assert_eq!(longer.sequence("default"), added.sequence("default"));

    let (report, preferred) = run_workflow_set_default(&project, &read(longer.clone()), "quick");
    assert_eq!(report.output, vec!["default workflow: quick"]);
    let preferred = preferred.unwrap();
    assert_eq!(preferred.default_workflow, "quick");

    let state = files(preferred, TasksRead::Missing);
    let (report, shorter) = run_workflow_remove(&project, &state, "default");
    assert_eq!(report.output, vec!["workflow removed: default"]);
    assert!(!shorter.unwrap().workflows.contains_key("default"));
    assert_eq!(
        reason(run_workflow_remove(&project, &state, "quick").1.unwrap_err()),
        "cannot remove the default workflow; set-default first"
    );
}

#[test]
fn a_workflow_in_use_is_kept() {
    let project = project();
    let (_, added) = run_workflow_add(
        &project,
        &read(config()),
        "quick",
        vec!["implementing".to_owned()],
    );
    let added = added.unwrap();
    let tasks = in_phase("quick", "implementing", &added);
    let state = files(added.clone(), tasks);

    assert_eq!(
        reason(run_workflow_remove(&project, &state, "quick").1.unwrap_err()),
        "cannot remove workflow 'quick': task task-001 is not terminal"
    );
    let change = |add: Option<&str>, after: Option<&str>, remove: Option<&str>| {
        reason(run_workflow_update(&project, &state, "quick", add, after, remove).1.unwrap_err())
    };
    assert_eq!(
        change(None, None, Some("implementing")),
        "cannot remove phase 'implementing' from workflow 'quick': task task-001 is in that phase"
    );
    assert_eq!(change(None, None, None), "one of --add or --remove is required");
    assert_eq!(change(None, None, Some("done")), "cannot remove reserved phase 'done'");
    assert_eq!(change(Some("cooking"), None, None), "unknown phase 'cooking'");
    assert_eq!(
        change(Some("implementing"), None, None),
        "workflow 'quick' already references phase 'implementing'"
    );
    assert_eq!(
        change(Some("reviewing"), Some("cooking"), None),
        "phase 'cooking' not found in workflow 'quick'"
    );
    assert_eq!(
        reason(run_workflow_add(&project, &read(added), "quick", vec![]).1.unwrap_err()),
        "workflow 'quick' already exists"
    );
    assert_eq!(
        reason(run_workflow_set_default(&project, &read(config()), "slow").1.unwrap_err()),
        "unknown workflow 'slow'"
    );
    assert!(matches!(
        run_workflow_list(&project, &ConfigRead::Missing),
        Err(WorkflowListError::NotFound { .. })
    ));
}

fn hook(on: &str, run: &str) -> HookEntry {
    HookEntry { on: on.to_owned(), run: run.to_owned() }
}

fn seen(settings: Option<&str>) -> HookFiles {
    HookFiles {
        config: read(config()),
        parent: Some("/agira".to_owned()),
        settings: match settings {
            Some(text) => TextRead::Contents { text: text.to_owned() },
            None => TextRead::Missing,
        },
    }
}

fn words(parts: &[&str]) -> Vec<String> {
    parts.iter().map(|part| (*part).to_owned()).collect()
}

#[test]
fn a_hook_of_a_project_is_added_changed_and_removed() {
    let mut project = project();
    let (report, result) =
        run_hook_add(&project, &seen(None), "done", &words(&["echo", "a b"]), false);
    assert_eq!(result, Ok(()));
    assert_eq!(report.output.as_deref(), Some("added hook done: echo \"a b\""));
    match report.change.unwrap() {
        HookFileChange::Write { path, text } => {
            assert_eq!(path, "/agira/test/hooks.toml");
            let table: toml::Table = text.parse().unwrap();
            assert_eq!(table["hooks"][0]["run"].as_str(), Some("echo \"a b\""));
        }
        other => panic!("expected a file, got: {other:?}"),
    }

    project.project_hooks.hooks =
        vec![hook("done", "one"), hook("failed", "two"), hook("done", "three")];
    let (report, result) =
        run_hook_update(&project, &seen(None), "done", &words(&["new"]), false);
    assert_eq!(result, Ok(()));
    assert_eq!(report.output.as_deref(), Some("updated 2 hook(s) for done: new"));
    let (report, result) = run_hook_remove(&project, &seen(None), "done", false);
    assert_eq!(result, Ok(()));
    assert_eq!(report.output.as_deref(), Some("removed 2 hook(s) for done"));

    project.project_hooks.hooks = vec![hook("done", "one")];
    let (report, _) = run_hook_remove(&project, &seen(None), "done", false);
    assert!(matches!(
        report.change,
        Some(HookFileChange::Delete { path }) if path == "/agira/test/hooks.toml"
    ));
}

#[test]
fn a_hook_of_all_projects_stands_in_the_settings() {
    let mut project = project();
    let (report, result) = run_hook_add(
        &project,
        &seen(Some("default_max_retries = 9\n")),
        "*",
        &words(&["log it"]),
        true,
    );
    assert_eq!(result, Ok(()));
    assert_eq!(report.output.as_deref(), Some("added global hook *: log it"));
    match report.change.unwrap() {
        HookFileChange::Write { path, text } => {
            assert_eq!(path, "/agira/config.toml");
            let table: toml::Table = text.parse().unwrap();
            assert_eq!(table["default_max_retries"].as_integer(), Some(9));
            assert_eq!(table["hooks"][0]["on"].as_str(), Some("*"));
        }
        other => panic!("expected a file, got: {other:?}"),
    }
    project.global_hooks.hooks = vec![hook("*", "g")];
    project.project_hooks.hooks = vec![hook("done", "p")];
    assert_eq!(run_hook_list(&project).unwrap(), "source  event  command\nglobal  *  g\nproject  done  p\n");
}

#[test]
fn what_is_no_hook_is_refused() {
    let project = project();
    let add = |event: &str, parts: &[&str]| {
        run_hook_add(&project, &seen(None), event, &words(parts), false).1.unwrap_err()
    };
    assert_eq!(add("", &["x"]), HookError::InvalidEventName);
    assert_eq!(add("a b", &["x"]), HookError::InvalidEventName);
    assert_eq!(add("done", &[" "]), HookError::EmptyCommand);
    match add("cooking", &["x"]) {
        HookError::UnknownEvent { event, valid_events } => {
            assert_eq!(event, "cooking");
            assert_eq!(
                valid_events,
                [
                    "*",
                    "task_added",
                    "all_tasks_done",
                    "failed",
                    "done",
                    "implementing",
                    "pending",
                    "reviewing"
                ]
            );
        }
        other => panic!("expected UnknownEvent, got: {other:?}"),
    }
    assert_eq!(
        run_hook_remove(&project, &seen(None), "done", true).1,
        Err(HookError::HookNotFound { scope: HookScope::Global, event: "done".to_owned() })
    );
    let mut broken = seen(None);
    broken.config = ConfigRead::Missing;
    assert!(matches!(
        run_hook_add(&project, &broken, "done", &words(&["x"]), false).1,
        Err(HookError::ConfigNotFound { .. })
    ));
}

#[test]
fn words_of_a_command_are_quoted_where_they_must_be() {
    assert_eq!(shell_word("plain"), "plain");
    assert_eq!(shell_word(""), "\"\"");
    assert_eq!(shell_word("a \"b\" `c` \\"), "\"a \\\"b\\\" \\`c\\` \\\\\"");
    assert_eq!(command_from_parts(&words(&["a b"])), "a b");
    assert_eq!(command_from_parts(&words(&["a", "b c"])), "a \"b c\"");
}
