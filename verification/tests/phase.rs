//! The phases of a project, listed and changed.

use agira::commands::phase::{
    run_phase_add, run_phase_list, run_phase_remove, run_phase_update, PhaseGetError,
    PhaseUpdateError,
};
use agira::engine::config::{write_project_config, Config, ConfigError, ConfigRead, PhaseDef};
use agira::engine::global_config::GlobalConfig;
use agira::engine::hooks::HookConfig;
use agira::engine::project::Project;

fn three_phase_config() -> Config {
    Config::new_single_workflow(
        "test",
        vec![
            ("enriching".to_owned(), PhaseDef::default()),
            ("verifying".to_owned(), PhaseDef::default()),
        ],
        3,
    )
}

fn gated_config() -> Config {
    Config::new_single_workflow(
        "test",
        vec![
            ("enriching".to_owned(), PhaseDef::default()),
            (
                "verifying".to_owned(),
                PhaseDef { gate: Some("cargo test".to_owned()), ..PhaseDef::default() },
            ),
        ],
        3,
    )
}

fn setup_project_with_config(config: Config) -> (ConfigRead, Project) {
    let project = Project {
        git_root: "/work/test-repo".to_owned(),
        slug: "test-repo".to_owned(),
        state_dir: "/home/.agira/test-repo".to_owned(),
        global_config: GlobalConfig::for_program("agent"),
        global_hooks: HookConfig::default(),
        project_hooks: HookConfig::default(),
    };
    (ConfigRead::Parsed { contents: "\"max_retries\"".to_owned(), config }, project)
}

#[test]
fn set_gate_writes_to_config_and_round_trips() {
    let (read, project) = setup_project_with_config(three_phase_config());

    let result = run_phase_update(
        &project,
        &read,
        "verifying",
        None,
        None,
        false,
        false,
        Some("cargo test"),
        false,
    );
    assert!(result.is_ok(), "set-gate must succeed: {result:?}");

    let (written, _) = result.unwrap();
    assert_eq!(
        written.phases.get("verifying").unwrap().gate.as_deref(),
        Some("cargo test")
    );
}

#[test]
fn unset_gate_removes_key_from_config() {
    let (read, project) = setup_project_with_config(gated_config());

    let result = run_phase_update(
        &project,
        &read,
        "verifying",
        None,
        None,
        false,
        false,
        None,
        true,
    );
    assert!(result.is_ok(), "unset-gate must succeed: {result:?}");

    let (written, _) = result.unwrap();
    assert_eq!(written.phases.get("verifying").unwrap().gate, None);
}

#[test]
fn set_gate_on_pending_returns_reserved_phase_error() {
    let (read, project) = setup_project_with_config(three_phase_config());

    let result = run_phase_update(
        &project,
        &read,
        "pending",
        None,
        None,
        false,
        false,
        Some("cargo test"),
        false,
    );

    match result {
        Err(PhaseUpdateError::ReservedPhase { name }) => {
            assert_eq!(name, "pending");
        }
        other => panic!("expected ReservedPhase, got: {other:?}"),
    }
}

#[test]
fn set_gate_on_done_returns_reserved_phase_error() {
    let (read, project) = setup_project_with_config(three_phase_config());

    let result = run_phase_update(
        &project,
        &read,
        "done",
        None,
        None,
        false,
        false,
        Some("cargo test"),
        false,
    );

    match result {
        Err(PhaseUpdateError::ReservedPhase { name }) => {
            assert_eq!(name, "done");
        }
        other => panic!("expected ReservedPhase, got: {other:?}"),
    }
}

#[test]
fn phase_list_shows_gate_when_present() {
    let (read, project) = setup_project_with_config(gated_config());

    let result = run_phase_list(&project, &read);
    assert!(result.is_ok(), "phase list must succeed: {result:?}");

    let lines = result.unwrap();
    let line = lines.iter().find(|line| line.starts_with("verifying")).unwrap();
    assert!(line.ends_with("  [gate: cargo test]"), "{line}");
    assert!(lines.iter().filter(|line| line.contains("[gate:")).count() == 1);
}

#[test]
fn write_config_omits_gate_key_when_none() {
    let config = three_phase_config();
    write_project_config("/state/config.json", &config).unwrap();
    assert_eq!(config.phases.get("enriching").unwrap().gate, None);
    assert_eq!(config.phases.get("verifying").unwrap().gate, None);

    let mut empty = three_phase_config();
    empty.phases.remove("verifying");
    assert!(matches!(
        write_project_config("/state/config.json", &empty),
        Err(ConfigError::Invalid { .. })
    ));
}

#[test]
fn a_phase_is_added_and_taken_away() {
    let (read, project) = setup_project_with_config(three_phase_config());

    let (grown, output) =
        run_phase_add(&project, &read, "polishing", Some("m"), Some("make it shine")).unwrap();
    assert_eq!(output, "phase added: polishing");
    assert_eq!(grown.phases.get("polishing").unwrap().model.as_deref(), Some("m"));
    assert_eq!(
        grown.phases.get("polishing").unwrap().duty.as_deref(),
        Some("make it shine")
    );
    assert!(!grown.sequence("default").contains(&"polishing".to_owned()));

    let (read, project) = setup_project_with_config(grown);
    assert_eq!(
        run_phase_add(&project, &read, "polishing", None, None).unwrap_err(),
        PhaseUpdateError::DuplicatePhase { name: "polishing".to_owned() }
    );
    let (shrunk, _) = run_phase_remove(&project, &read, "polishing").unwrap();
    assert!(!shrunk.phases.contains_key("polishing"));
    assert_eq!(
        run_phase_remove(&project, &read, "verifying").unwrap_err(),
        PhaseUpdateError::PhaseReferenced {
            name: "verifying".to_owned(),
            workflows: vec!["default".to_owned()],
        }
    );
    assert_eq!(
        run_phase_remove(&project, &read, "pending").unwrap_err(),
        PhaseUpdateError::ReservedPhase { name: "pending".to_owned() }
    );
    assert_eq!(
        run_phase_remove(&project, &read, "cooking").unwrap_err(),
        PhaseUpdateError::PhaseNotFound { name: "cooking".to_owned() }
    );
}

#[test]
fn a_change_of_nothing_is_no_change() {
    let (read, project) = setup_project_with_config(three_phase_config());
    assert_eq!(
        run_phase_update(&project, &read, "verifying", None, None, false, false, None, false)
            .unwrap_err(),
        PhaseUpdateError::NoOperation
    );
    assert_eq!(
        run_phase_list(&project, &ConfigRead::Missing).unwrap_err(),
        PhaseGetError::NotFound { path: "/home/.agira/test-repo/config.json".to_owned() }
    );
}
