//! Commands that are run when something happens.

use agira::engine::config::{Config, PhaseDef};
use agira::engine::global_config::TextRead;
use agira::engine::hooks::{
    dispatch_hook, dispatch_hook_with_debug, dispatch_hooks, hook_command, hook_debug_enabled,
    hooks_for_event, hooks_for_phase, load_hooks, sanitize_field, save_hooks,
    save_hooks_preserving_toml, HookAction, HookConfig, HookConfigError, HookContext, HookEntry,
    HookHappening, HooksRead,
};
use agira::engine::tasks::{TaskStore, TasksRead};
use agira::time::Instant;

const NOW: &str = "2026-06-11T12:00:00+00:00";

fn context(state_dir: &str) -> HookContext {
    HookContext {
        task_id: "task-001".to_owned(),
        task_title: "hook task".to_owned(),
        task_description: String::new(),
        task_state: "pending".to_owned(),
        task_dependencies: String::new(),
        task_retry_count: "0".to_owned(),
        task_max_retries: "3".to_owned(),
        task_created_at: "2026-06-11T00:00:00+00:00".to_owned(),
        project_slug: "hook-project".to_owned(),
        project_path: state_dir.to_owned(),
        state_dir: state_dir.to_owned(),
        from_phase: String::new(),
        to_phase: "pending".to_owned(),
        artifact: String::new(),
    }
}

fn failures(actions: &[HookAction]) -> Vec<&str> {
    actions
        .iter()
        .filter_map(|action| match action {
            HookAction::LogFailure { line } => Some(line.trim_end_matches('\n')),
            _ => None,
        })
        .collect()
}

#[test]
fn appends_hook_failure_log_on_spawn_failure() {
    let ctx = context("/state");
    let hook = HookEntry {
        on: "task_added".to_owned(),
        run: "definitely-not-a-command-for-agira-hook-test".to_owned(),
    };

    let happening = HookHappening::SpawnFailed { error: "No such file or directory".to_owned() };
    let actions = dispatch_hook(&hook, "task_added", &ctx, &happening, NOW);

    let lines = failures(&actions);
    assert_eq!(lines.len(), 1);

    let fields: Vec<&str> = lines[0].split('\t').collect();
    assert_eq!(fields.len(), 5);
    assert!(Instant::parse(fields[0]).is_some());
    assert_eq!(fields[1], "task_added");
    assert_eq!(fields[2], "task-001");
    assert_eq!(fields[3], "definitely-not-a-command-for-agira-hook-test");
    assert!(fields[4].starts_with("spawn_error: "));
}

#[test]
fn appends_hook_failure_log_on_non_zero_exit_status() {
    let ctx = context("/state");
    let hook = HookEntry { on: "done".to_owned(), run: "exit 7".to_owned() };

    let happening = HookHappening::Exited {
        pid: 9,
        success: false,
        code: Some(7),
        stdout: String::new(),
        stderr: String::new(),
    };
    let actions = dispatch_hook(&hook, "done", &ctx, &happening, NOW);

    let lines = failures(&actions);
    assert_eq!(lines.len(), 1);

    let fields: Vec<&str> = lines[0].split('\t').collect();
    assert_eq!(fields.len(), 5);
    assert!(Instant::parse(fields[0]).is_some());
    assert_eq!(fields[1], "done");
    assert_eq!(fields[2], "task-001");
    assert_eq!(fields[3], "exit 7");
    assert_eq!(fields[4], "exit_status: 7");
}

#[test]
fn a_command_that_succeeds_leaves_nothing_behind() {
    let hook = HookEntry { on: "done".to_owned(), run: "true".to_owned() };
    let happening = HookHappening::Exited {
        pid: 9,
        success: true,
        code: Some(0),
        stdout: "out".to_owned(),
        stderr: String::new(),
    };
    assert!(dispatch_hook(&hook, "done", &context("/s"), &happening, NOW).is_empty());

    let noted = dispatch_hook_with_debug(&hook, "done", &context("/s"), &happening, NOW);
    assert_eq!(noted.len(), 1);
    match &noted[0] {
        HookAction::LogDebug { entry } => {
            assert_eq!(entry.exit_status, Some(0));
            assert_eq!(entry.stdout.as_deref(), Some("out"));
            assert_eq!(entry.command, "true");
        }
        other => panic!("expected a note, got: {other:?}"),
    }
}

#[test]
fn the_lack_of_a_command_is_noted_when_all_are() {
    assert!(dispatch_hooks(&[], "done", &context("/s"), false, NOW).is_empty());
    let noted = dispatch_hooks(&[], "done", &context("/s"), true, NOW);
    assert!(matches!(&noted[..], [HookAction::LogDebug { entry }]
        if entry.spawn_result == "no_matching_hooks"));
    assert!(hook_debug_enabled(false, Some("1")));
    assert!(hook_debug_enabled(true, None));
    assert!(!hook_debug_enabled(false, Some("yes")));
}

fn entry(on: &str, run: &str) -> HookEntry {
    HookEntry { on: on.to_owned(), run: run.to_owned() }
}

#[test]
fn commands_are_chosen_by_what_happens() {
    let global = HookConfig { hooks: vec![entry("done", "g"), entry("*", "any")] };
    let project = HookConfig { hooks: vec![entry("done", "p"), entry("task_added", "a")] };

    let found: Vec<String> =
        hooks_for_event(&global, &project, "done").into_iter().map(|hook| hook.run).collect();
    assert_eq!(found, vec!["g", "any", "p"]);
    let found: Vec<String> =
        hooks_for_phase(&global, &project, "done").into_iter().map(|hook| hook.run).collect();
    assert_eq!(found, vec!["g", "any", "p"]);
}

#[test]
fn a_command_is_told_of_the_task() {
    let config = Config::new_single_workflow(
        "test",
        vec![("implementing".to_owned(), PhaseDef::default())],
        3,
    );
    let mut store = TaskStore::new("/s", TasksRead::Missing, &config).unwrap();
    store.add_task("a", "d", vec![], None, "default".to_owned()).unwrap();
    store.add_task("b", "", vec![], None, "default".to_owned()).unwrap();
    let task = store
        .add_task(
            "c",
            "text",
            vec!["task-001".to_owned(), "task-002".to_owned()],
            None,
            "default".to_owned(),
        )
        .unwrap();
    let ctx = HookContext::new(&task, "slug", "/work", "/s", "pending", "implementing", "done it");
    assert_eq!(ctx.task_dependencies, "task-001,task-002");
    let command = hook_command(&entry("implementing", "echo hi"), &ctx);
    assert_eq!(command.program, "sh");
    assert_eq!(command.args, vec!["-c", "echo hi"]);
    let value = |name: &str| {
        command.env.iter().find(|variable| variable.name == name).map(|v| v.value.as_str())
    };
    assert_eq!(value("AGIRA_TASK_ID"), Some("task-003"));
    assert_eq!(value("AGIRA_TO_PHASE"), Some("implementing"));
    assert_eq!(value("AGIRA_PROJECT_SLUG"), Some("slug"));
    assert_eq!(value("AGIRA_ARTIFACT"), Some("done it"));
}

#[test]
fn a_field_is_one_field() {
    assert_eq!(sanitize_field("a\tb\nc\rd", 100), "a b c d");
    assert_eq!(sanitize_field("\u{e4}\u{f6}\u{fc}", 2), "\u{e4}\u{f6}");
}

#[test]
fn hooks_are_written_beside_what_is_there() {
    let config = HookConfig { hooks: vec![entry("done", "echo \"x\"")] };
    let before = TextRead::Contents { text: "default_max_retries = 7\n".to_owned() };

    let text = save_hooks_preserving_toml("/s/config.toml", before, &config).unwrap();

    let table: toml::Table = text.parse().unwrap();
    assert_eq!(table["default_max_retries"].as_integer(), Some(7));
    let hooks = table["hooks"].as_array().unwrap();
    assert_eq!(hooks[0]["on"].as_str(), Some("done"));
    assert_eq!(hooks[0]["run"].as_str(), Some("echo \"x\""));

    let alone: toml::Table = save_hooks("/s/hooks.toml", &config).unwrap().parse().unwrap();
    assert_eq!(alone["hooks"].as_array().unwrap().len(), 1);

    let broken = TextRead::Contents { text: "= nothing".to_owned() };
    assert!(matches!(
        save_hooks_preserving_toml("/s/config.toml", broken, &config),
        Err(HookConfigError::Parse { .. })
    ));
    let unreadable = TextRead::Unreadable { message: "denied".to_owned() };
    assert!(matches!(
        save_hooks_preserving_toml("/s/config.toml", unreadable, &config),
        Err(HookConfigError::Read { .. })
    ));
}

#[test]
fn hooks_that_are_not_there_are_none() {
    assert!(load_hooks("/s/hooks.toml", HooksRead::Missing).unwrap().hooks.is_empty());
    assert!(matches!(
        load_hooks("/s/hooks.toml", HooksRead::Malformed { message: "m".to_owned() }),
        Err(HookConfigError::Parse { .. })
    ));
    let there = HookConfig { hooks: vec![entry("done", "x")] };
    assert_eq!(
        load_hooks("/s/hooks.toml", HooksRead::Parsed { config: there.clone() }).unwrap(),
        there
    );
}

#[test]
fn a_command_that_cannot_be_run_is_warned_of() {
    let ctx = context("/state");
    let hook = HookEntry { on: "done".to_owned(), run: "exit 7".to_owned() };

    let unspawned = HookHappening::SpawnFailed { error: "no shell".to_owned() };
    let plain = dispatch_hook(&hook, "done", &ctx, &unspawned, NOW);
    assert_eq!(
        plain[0],
        HookAction::Warn { message: "warning: hook spawn failed: no shell".to_owned() }
    );
    let noted = dispatch_hook_with_debug(&hook, "done", &ctx, &unspawned, NOW);
    assert_eq!(noted[..2], plain[..]);
    assert!(matches!(
        &noted[2],
        HookAction::LogDebug { entry } if entry.spawn_result == "error:no shell"
            && entry.pid.is_none()
    ));

    let lost = HookHappening::WaitFailed { pid: 9, error: "gone".to_owned() };
    assert!(dispatch_hook(&hook, "done", &ctx, &lost, NOW).is_empty());
    let noted = dispatch_hook_with_debug(&hook, "done", &ctx, &lost, NOW);
    assert_eq!(noted.len(), 2);
    assert_eq!(
        noted[0],
        HookAction::Warn { message: "warning: hook wait failed: gone".to_owned() }
    );
    assert!(matches!(
        &noted[1],
        HookAction::LogDebug { entry } if entry.spawn_result == "error:wait failed: gone"
            && entry.pid == Some(9)
    ));
}
