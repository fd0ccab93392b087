//! The configuration of a project.

use agira::engine::config::{
    load_project_config, normalize_config, normalize_mandatory_phase_def, normalize_sequence,
    Config, ConfigError, ConfigRead, PhaseDef, INITIAL_PHASE_NAME, TERMINAL_PHASE_NAME,
};
use agira::engine::global_config::GlobalConfig;
use agira::string_map::StringMap;

#[test]
fn normalize_mandatory_phase_def_sets_gate_to_none_on_pending_and_done() {
    let mut phases: StringMap<PhaseDef> = StringMap::new();
    for name in [INITIAL_PHASE_NAME, TERMINAL_PHASE_NAME] {
        phases.insert(
            name.to_owned(),
            PhaseDef {
                model: Some("some-model".to_owned()),
                duty: None,
                gate: Some("should be cleared".to_owned()),
            },
        );
    }

    normalize_mandatory_phase_def(INITIAL_PHASE_NAME, &mut phases);
    normalize_mandatory_phase_def(TERMINAL_PHASE_NAME, &mut phases);

    assert_eq!(phases.get(INITIAL_PHASE_NAME).unwrap().gate, None);
    assert_eq!(phases.get(TERMINAL_PHASE_NAME).unwrap().gate, None);
}

fn config() -> Config {
    Config::new_single_workflow(
        "rust",
        vec![("implementing".to_owned(), PhaseDef::default())],
        4,
    )
}

fn settings() -> GlobalConfig {
    let mut settings = GlobalConfig::for_program("agent");
    settings.default_max_retries = 9;
    settings
}

#[test]
fn every_workflow_starts_pending_and_ends_done() {
    let names = |list: &[&str]| -> Vec<String> { list.iter().map(|s| s.to_string()).collect() };
    assert_eq!(normalize_sequence(names(&[])), ["pending", "done"]);
    assert_eq!(
        normalize_sequence(names(&["done", "a", "pending", "b"])),
        ["pending", "a", "b", "done"]
    );
    assert_eq!(config().sequence("default"), ["pending", "implementing", "done"]);
    assert_eq!(config().validate(), Ok(()));
    assert_eq!(config().terminal_phase(), Some("done"));
    assert!(config().phase_def("pending").is_some());
}

#[test]
fn retries_that_a_config_does_not_name_are_those_of_the_user() {
    let retries = |contents: &str, max_retries: u32| {
        let mut config = config();
        config.max_retries = max_retries;
        let read = ConfigRead::Parsed { contents: contents.to_owned(), config };
        load_project_config("/c", read, &settings()).unwrap().max_retries
    };
    assert_eq!(retries("{\"max_retries\": 4}", 4), 4);
    assert_eq!(retries("{\"max_retries\": 1}", 1), 1);
    assert_eq!(retries("{\"max_retries\": 0}", 0), 1);
    assert_eq!(retries("{}", 1), 9);
    assert_eq!(retries("{}", 4), 4);
}

#[test]
fn a_config_that_cannot_be_used_is_reported() {
    let load = |read: ConfigRead| load_project_config("/c", read, &settings()).unwrap_err();
    assert_eq!(load(ConfigRead::Missing), ConfigError::NotFound { path: "/c".to_owned() });
    assert!(matches!(
        load(ConfigRead::Unreadable { message: "m".to_owned() }),
        ConfigError::Read { .. }
    ));
    assert!(matches!(
        load(ConfigRead::Malformed { message: "m".to_owned() }),
        ConfigError::Parse { .. }
    ));
    let mut lost = config();
    lost.default_workflow = "other".to_owned();
    assert!(matches!(
        load(ConfigRead::Parsed { contents: String::new(), config: lost }),
        ConfigError::Invalid { .. }
    ));
}

#[test]
fn a_normalized_config_is_left_as_it_is() {
    let mut config = Config::new_single_workflow(
        "test",
        vec![("done".to_owned(), PhaseDef::default()), ("build".to_owned(), PhaseDef::default())],
        3,
    );
    normalize_config(&mut config);
    assert_eq!(config.sequence("default"), ["pending", "build", "done"]);

    let once = config.clone();
    normalize_config(&mut config);
    assert_eq!(config, once);
}
